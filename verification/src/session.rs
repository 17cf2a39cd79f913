//! A run of the program, from its arguments to its exit code.
//!
//! A session says what to do next, and is told what came of it.
use vstd::prelude::*;
use vstd::relations::*;
use vstd::string::*;
use crate::action::{self, InputAction, InputActionView};
use crate::args::{Args, ArgsView};
use crate::build_kind::BuildKind;
use crate::cache::{self, CacheEntryView};
use crate::cargo::{self, CargoCommand, CargoCommandView};
use crate::consts::MAX_CACHE_AGE_MS;
use crate::deps;
use crate::error::{self, MainError, MainErrorView};
use crate::generate::{self, StepView};
use crate::input::{Input, InputView};
use crate::metadata;
use crate::paths;
use crate::text;

verus! {

/// A script together with where it comes from.
#[derive(Debug)]
pub enum Source {
    /// A script file.
    File { name: String, path: String, content: String, modified: u128 },
    /// An expression.
    Expr { content: String, template: Option<String> },
    /// A loop expression.
    Loop { content: String, count: bool },
}

impl View for Source {
    type V = InputView;

    open spec fn view(&self) -> InputView {
        match *self {
            Source::File { name, path, content, modified } => InputView::File(
                name@,
                path@,
                content@,
                modified,
            ),
            Source::Expr { content, template } => InputView::Expr(
                content@,
                text::opt_text(template),
            ),
            Source::Loop { content, count } => InputView::Loop(content@, count),
        }
    }
}

impl Source {
    /// The input that the script is.
    pub fn as_input(&self) -> (r: Input<'_>)
        ensures
            r@ == self@,
    {
        match self {
            Source::File { name, path, content, modified } => Input::File(
                name.as_str(),
                path.as_str(),
                content.as_str(),
                *modified,
            ),
            Source::Expr { content, template: Some(template) } => Input::Expr(
                content.as_str(),
                Some(template.as_str()),
            ),
            Source::Expr { content, template: None } => Input::Expr(content.as_str(), None),
            Source::Loop { content, count } => Input::Loop(content.as_str(), *count),
        }
    }
}

/// How far a run has got.
#[derive(Debug)]
pub enum Stage {
    /// Nothing has been done.
    Start,
    /// The cache is being cleared.
    Clearing,
    /// The script file is being read.
    Reading,
    /// What to do with the script is being decided.
    Deciding { source: Source },
    /// The package is being generated and compiled.
    Generating { source: Source, action: InputAction },
    /// The script is running.
    Running,
    /// Old packages are being thrown out of the cache.
    Closing { result: Result<i32, MainError> },
    /// The run is over.
    Over,
}

/// What a `Stage` says.
pub enum StageView {
    Start,
    Clearing,
    Reading,
    Deciding { source: InputView },
    Generating { source: InputView, action: InputActionView },
    Running,
    Closing { result: Result<i32, MainErrorView> },
    Over,
}

impl View for Stage {
    type V = StageView;

    open spec fn view(&self) -> StageView {
        match *self {
            Stage::Start => StageView::Start,
            Stage::Clearing => StageView::Clearing,
            Stage::Reading => StageView::Reading,
            Stage::Deciding { source } => StageView::Deciding { source: source@ },
            Stage::Generating { source, action } => StageView::Generating {
                source: source@,
                action: action@,
            },
            Stage::Running => StageView::Running,
            Stage::Closing { result } => StageView::Closing { result: error::code_view(result) },
            Stage::Over => StageView::Over,
        }
    }
}

/// A run of the program.
#[derive(Debug)]
pub struct Session {
    /// What the user asks for.
    pub args: Args,
    /// Whether Cargo has to be told to use colors.
    pub color: bool,
    pub stage: Stage,
}

/// What a `Session` says.
pub struct SessionView {
    pub args: ArgsView,
    pub color: bool,
    pub stage: StageView,
}

impl View for Session {
    type V = SessionView;

    open spec fn view(&self) -> SessionView {
        SessionView { args: self.args@, color: self.color, stage: self.stage@ }
    }
}

/// How a script is run.
#[derive(Debug)]
pub enum RunPlan {
    /// Run the executable whose path a file holds.
    Exec { exe_path_file: String, args: Vec<String>, env: Vec<(String, String)> },
    /// Run a Cargo command.
    Cargo { command: CargoCommand, env: Vec<(String, String)> },
}

/// What a `RunPlan` says.
#[verifier::ext_equal]
pub enum RunPlanView {
    Exec { exe_path_file: Seq<char>, args: Seq<Seq<char>>, env: Seq<(Seq<char>, Seq<char>)> },
    Cargo { command: CargoCommandView, env: Seq<(Seq<char>, Seq<char>)> },
}

impl View for RunPlan {
    type V = RunPlanView;

    open spec fn view(&self) -> RunPlanView {
        match *self {
            RunPlan::Exec { exe_path_file, args, env } => RunPlanView::Exec {
                exe_path_file: exe_path_file@,
                args: text::texts(args@),
                env: text::text_pairs(env@),
            },
            RunPlan::Cargo { command, env } => RunPlanView::Cargo {
                command: command@,
                env: text::text_pairs(env@),
            },
        }
    }
}

/// What is to be done next.
#[derive(Debug)]
pub enum Command {
    /// Throw packages out of the cache that are at least as old as said, in milliseconds.
    CleanCache { max_age: u128 },
    /// Find and read the script file.
    ReadScript { script: String },
    /// Decide what to do with the script.
    Decide { deps: Vec<(String, String)>, prelude: Vec<String> },
    /// Generate and compile the package.
    Generate,
    /// Run the script.
    Run { plan: RunPlan },
    /// Print the notice, if there is one, and end.
    Return { notice: Option<String>, result: Result<i32, MainError> },
}

/// What a `Command` says.
pub enum CommandView {
    CleanCache { max_age: u128 },
    ReadScript { script: Seq<char> },
    Decide { deps: Seq<(Seq<char>, Seq<char>)>, prelude: Seq<Seq<char>> },
    Generate,
    Run { plan: RunPlanView },
    Return { notice: Option<Seq<char>>, result: Result<i32, MainErrorView> },
}

impl View for Command {
    type V = CommandView;

    open spec fn view(&self) -> CommandView {
        match *self {
            Command::CleanCache { max_age } => CommandView::CleanCache { max_age },
            Command::ReadScript { script } => CommandView::ReadScript { script: script@ },
            Command::Decide { deps, prelude } => CommandView::Decide {
                deps: text::text_pairs(deps@),
                prelude: text::texts(prelude@),
            },
            Command::Generate => CommandView::Generate,
            Command::Run { plan } => CommandView::Run { plan: plan@ },
            Command::Return { notice, result } => CommandView::Return {
                notice: text::opt_text(notice),
                result: error::code_view(result),
            },
        }
    }
}

/// What came of what was to be done.
#[derive(Debug)]
pub enum Event {
    /// The run begins.
    Begin,
    /// The cache was cleaned, or could not be.
    Cleaned { result: Result<(), MainError> },
    /// The script file was found nowhere.
    ScriptMissing,
    /// The script file could not be read.
    ReadFailed { error: MainError },
    /// The script file was found under the given path, seen from the current directory.
    ScriptRead { path: String, body: String, modified: u128, current_dir: String },
    /// What to do with the script is settled, or could not be.
    Decided { action: Result<InputAction, MainError> },
    /// The package was generated and compiled, or could not be.  The current directory matters
    /// for scripts that are not in a file, and the directory of the whole cache where Cargo runs
    /// the script with the binary cache.
    Generated { result: Result<(), MainError>, current_dir: String, cache_dir: String },
    /// The script ran and ended with a status, `None` where it was killed, or could not be run.
    Ran { status: Result<Option<i32>, MainError> },
}

/// What an `Event` says.
pub enum EventView {
    Begin,
    Cleaned { result: Result<(), MainErrorView> },
    ScriptMissing,
    ReadFailed { error: MainErrorView },
    ScriptRead { path: Seq<char>, body: Seq<char>, modified: u128, current_dir: Seq<char> },
    Decided { action: Result<InputActionView, MainErrorView> },
    Generated { result: Result<(), MainErrorView>, current_dir: Seq<char>, cache_dir: Seq<char> },
    Ran { status: Result<Option<i32>, MainErrorView> },
}

/// How a script ended, over views.
pub open spec fn status_view(r: Result<Option<i32>, MainError>) -> Result<
    Option<i32>,
    MainErrorView,
> {
    match r {
        Ok(status) => Ok(status),
        Err(e) => Err(e@),
    }
}

impl View for Event {
    type V = EventView;

    open spec fn view(&self) -> EventView {
        match *self {
            Event::Begin => EventView::Begin,
            Event::Cleaned { result } => EventView::Cleaned { result: error::unit_view(result) },
            Event::ScriptMissing => EventView::ScriptMissing,
            Event::ReadFailed { error } => EventView::ReadFailed { error: error@ },
            Event::ScriptRead { path, body, modified, current_dir } => EventView::ScriptRead {
                path: path@,
                body: body@,
                modified,
                current_dir: current_dir@,
            },
            Event::Decided { action } => EventView::Decided { action: error::result_view(action) },
            Event::Generated { result, current_dir, cache_dir } => EventView::Generated {
                result: error::unit_view(result),
                current_dir: current_dir@,
                cache_dir: cache_dir@,
            },
            Event::Ran { status } => EventView::Ran { status: status_view(status) },
        }
    }
}

/// Whether the arguments make sense together: there is a script unless only the cache is to be
/// cleared, and it is not both an expression and a loop.
pub open spec fn runnable(args: ArgsView) -> bool {
    if args.script is Some {
        !(args.expr && args.loop_)
    } else {
        args.clear_cache
    }
}

/// Whether the arguments make sense together.
pub fn is_runnable(args: &Args) -> (r: bool)
    ensures
        r == runnable(args@),
{
    if args.script.is_some() {
        !(args.expr && args.loop_)
    } else {
        args.clear_cache
    }
}

/// The variables that are set in the environment of a script.
pub open spec fn script_env(source: InputView, base_path: Seq<char>) -> Seq<
    (Seq<char>, Seq<char>),
> {
    seq![
        (
            "CARGO_EVAL_SCRIPT_PATH"@,
            match source.path() {
                Some(path) => path,
                None => ""@,
            },
        ),
        ("CARGO_EVAL_SAFE_NAME"@, source.safe_name()),
        ("CARGO_EVAL_PKG_NAME"@, source.package_name()),
        ("CARGO_EVAL_BASE_PATH"@, base_path),
    ]
}

/// The error for a script file without a parent directory.
pub open spec fn no_base_path() -> MainErrorView {
    error::internal("couldn't get parent directory for file input base path"@)
}

/// The error for a script that was found nowhere.
pub open spec fn missing_script(script: Seq<char>) -> MainErrorView {
    error::internal("could not find script '"@ + script + "'"@)
}

/// The exit code for the status that a script ended with.
pub open spec fn exit_code(status: Option<i32>) -> i32 {
    match status {
        Some(code) => code,
        None => 1,
    }
}

impl SessionView {
    /// Whether this is the state of a run: its arguments make sense together, and a script file
    /// is read only where there is one.
    pub open spec fn valid(self) -> bool {
        runnable(self.args) && (self.stage is Reading ==> self.args.script is Some)
    }

    /// Whether something can happen at this stage.
    pub open spec fn expects(self, event: EventView) -> bool {
        match self.stage {
            StageView::Start => event is Begin,
            StageView::Clearing => event is Cleaned,
            StageView::Reading => event is ScriptMissing || event is ReadFailed
                || event is ScriptRead,
            StageView::Deciding { .. } => event is Decided,
            StageView::Generating { .. } => event is Generated,
            StageView::Running => event is Ran,
            StageView::Closing { .. } => event is Cleaned,
            StageView::Over => false,
        }
    }

    /// The session at another stage.
    pub open spec fn at(self, stage: StageView) -> SessionView {
        SessionView { stage, ..self }
    }

    /// The end of the run.
    pub open spec fn end(
        self,
        notice: Option<Seq<char>>,
        result: Result<i32, MainErrorView>,
    ) -> (SessionView, CommandView) {
        (self.at(StageView::Over), CommandView::Return { notice, result })
    }

    /// What follows once the result is clear: old packages are thrown out of the cache.  There's
    /// no point if we've already done a full clear, though.
    pub open spec fn finish(self, result: Result<i32, MainErrorView>) -> (SessionView, CommandView) {
        if self.args.clear_cache {
            self.end(None, result)
        } else {
            (
                self.at(StageView::Closing { result }),
                CommandView::CleanCache { max_age: MAX_CACHE_AGE_MS },
            )
        }
    }

    /// What follows once the script is there: the dependencies are sorted out.
    pub open spec fn prepare(self, source: InputView) -> (SessionView, CommandView) {
        match deps::dep_list(self.args.dep) {
            Err(e) => self.end(None, Err(e)),
            Ok(sorted) => (
                self.at(StageView::Deciding { source }),
                CommandView::Decide {
                    deps: sorted,
                    prelude: deps::prelude_list(self.args.unstable_features),
                },
            ),
        }
    }

    /// What follows once the cache has been cleared, if it is to be: the script is taken from
    /// the arguments or from a file.
    pub open spec fn open_input(self) -> (SessionView, CommandView) {
        let script = self.args.script->0;
        if self.args.expr {
            self.prepare(InputView::Expr(script, self.args.template))
        } else if self.args.loop_ {
            self.prepare(InputView::Loop(script, self.args.count))
        } else {
            (self.at(StageView::Reading), CommandView::ReadScript { script })
        }
    }

    /// How the script is run.
    pub open spec fn run_plan(
        self,
        source: InputView,
        action: InputActionView,
        base_path: Seq<char>,
        cache_dir: Seq<char>,
    ) -> RunPlanView {
        let env = script_env(source, base_path);
        if action.build_kind == BuildKind::Normal {
            RunPlanView::Exec {
                exe_path_file: paths::exe_path_file(action.pkg_path),
                args: self.args.args,
                env,
            }
        } else {
            RunPlanView::Cargo {
                command: action.cargo(action.build_kind.command(), self.color, cache_dir),
                env,
            }
        }
    }

    /// What follows once the package is there: the script is run, if it is to be.
    pub open spec fn run(
        self,
        source: InputView,
        action: InputActionView,
        current_dir: Seq<char>,
        cache_dir: Seq<char>,
    ) -> (SessionView, CommandView) {
        if !action.execute {
            self.finish(Ok(0))
        } else {
            match source.base_path(current_dir) {
                None => self.finish(Err(no_base_path())),
                Some(base_path) => (
                    self.at(StageView::Running),
                    CommandView::Run { plan: self.run_plan(source, action, base_path, cache_dir) },
                ),
            }
        }
    }

    /// What follows after an event.
    pub open spec fn next(self, event: EventView) -> (SessionView, CommandView) {
        match (self.stage, event) {
            (StageView::Start, _) => if self.args.clear_cache {
                (self.at(StageView::Clearing), CommandView::CleanCache { max_age: 0 })
            } else {
                self.open_input()
            },
            (StageView::Clearing, EventView::Cleaned { result: Err(e) }) => self.end(None, Err(e)),
            (StageView::Clearing, _) => if self.args.script is None {
                self.end(Some("`cargo eval` cache cleared."@), Ok(0))
            } else {
                self.open_input()
            },
            (StageView::Reading, EventView::ReadFailed { error }) => self.end(None, Err(error)),
            (
                StageView::Reading,
                EventView::ScriptRead { path, body, modified, current_dir },
            ) => self.prepare(
                InputView::File(
                    paths::script_name_of(path),
                    paths::path_join(current_dir, path),
                    body,
                    modified,
                ),
            ),
            (StageView::Reading, _) => self.end(
                None,
                Err(missing_script(self.args.script->0)),
            ),
            (StageView::Deciding { source }, EventView::Decided { action: Ok(action) }) => (
                self.at(StageView::Generating { source, action }),
                CommandView::Generate,
            ),
            (StageView::Deciding { .. }, EventView::Decided { action: Err(e) }) => self.end(
                None,
                Err(e),
            ),
            (
                StageView::Generating { source, action },
                EventView::Generated { result: Ok(()), current_dir, cache_dir },
            ) => self.run(source, action, current_dir, cache_dir),
            (
                StageView::Generating { .. },
                EventView::Generated { result: Err(e), .. },
            ) => self.end(None, Err(e)),
            (StageView::Running, EventView::Ran { status: Ok(status) }) => self.finish(
                Ok(exit_code(status)),
            ),
            (StageView::Running, EventView::Ran { status: Err(e) }) => self.finish(Err(e)),
            (StageView::Closing { result }, _) => self.end(None, result),
            (_, _) => self.end(None, Ok(0)),
        }
    }
}

/// A variable and its value.
fn var(name: &str, value: &str) -> (r: (String, String))
    ensures
        (r.0@, r.1@) == (name@, value@),
{
    (name.to_owned(), value.to_owned())
}

/// The variables that are set in the environment of a script.
fn make_env(source: &Source, base_path: &str) -> (r: Vec<(String, String)>)
    ensures
        text::text_pairs(r@) == script_env(source@, base_path@),
{
    let input: Input = source.as_input();
    let path: &str = match input.path() {
        Some(path) => path,
        None => "",
    };
    let mut env: Vec<(String, String)> = Vec::new();
    env.push(var("CARGO_EVAL_SCRIPT_PATH", path));
    env.push(var("CARGO_EVAL_SAFE_NAME", input.safe_name()));
    env.push(var("CARGO_EVAL_PKG_NAME", input.package_name().as_str()));
    env.push(var("CARGO_EVAL_BASE_PATH", base_path));
    assert(text::text_pairs(env@) =~= script_env(source@, base_path@));
    env
}

impl Session {
    /// A run that is about to begin.
    pub fn new(args: Args, color: bool) -> (r: Session)
        ensures
            r@ == (SessionView { args: args@, color, stage: StageView::Start }),
    {
        Session { args, color, stage: Stage::Start }
    }

    /// The end of the run.
    fn end(self, notice: Option<String>, result: Result<i32, MainError>) -> (r: (Session, Command))
        ensures
            (r.0@, r.1@) == self@.end(text::opt_text(notice), error::code_view(result)),
    {
        (Session { stage: Stage::Over, ..self }, Command::Return { notice, result })
    }

    /// What follows once the result is clear.
    fn finish(self, result: Result<i32, MainError>) -> (r: (Session, Command))
        ensures
            (r.0@, r.1@) == self@.finish(error::code_view(result)),
    {
        if self.args.clear_cache {
            self.end(None, result)
        } else {
            (
                Session { stage: Stage::Closing { result }, ..self },
                Command::CleanCache { max_age: MAX_CACHE_AGE_MS },
            )
        }
    }

    /// What follows once the script is there.
    fn prepare(self, source: Source) -> (r: (Session, Command))
        ensures
            (r.0@, r.1@) == self@.prepare(source@),
    {
        match deps::sort_deps(&self.args.dep) {
            Err(e) => self.end(None, Err(e)),
            Ok(sorted) => {
                let prelude: Vec<String> = deps::sort_prelude(&self.args.unstable_features);
                (
                    Session { stage: Stage::Deciding { source }, ..self },
                    Command::Decide { deps: sorted, prelude },
                )
            },
        }
    }

    /// What follows once the cache has been cleared, if it is to be.
    fn open_input(self) -> (r: (Session, Command))
        requires
            self@.args.script is Some,
            runnable(self@.args),
        ensures
            (r.0@, r.1@) == self@.open_input(),
    {
        let content: String = match &self.args.script {
            Some(script) => script.clone(),
            None => String::new(),
        };
        if self.args.expr {
            let template: Option<String> = metadata::copy_opt_text(&self.args.template);
            self.prepare(Source::Expr { content, template })
        } else if self.args.loop_ {
            let count: bool = self.args.count;
            self.prepare(Source::Loop { content, count })
        } else {
            (
                Session { stage: Stage::Reading, ..self },
                Command::ReadScript { script: content },
            )
        }
    }

    /// How the script is run.
    fn make_plan(
        &self,
        source: &Source,
        action: &InputAction,
        base_path: &str,
        cache_dir: &str,
    ) -> (r: RunPlan)
        ensures
            r@ == self@.run_plan(source@, action@, base_path@, cache_dir@),
    {
        let env: Vec<(String, String)> = make_env(source, base_path);
        if action.build_kind.can_exec_directly() {
            RunPlan::Exec {
                exe_path_file: paths::exe_path_cache(action.pkg_path.as_str()),
                args: metadata::copy_texts(&self.args.args),
                env,
            }
        } else {
            let cmd_name: &str = action.build_kind.exec_command();
            RunPlan::Cargo { command: action.cargo(cmd_name, self.color, cache_dir), env }
        }
    }

    /// What follows once the package is there.
    fn run(
        self,
        source: Source,
        action: InputAction,
        current_dir: String,
        cache_dir: String,
    ) -> (r: (Session, Command))
        ensures
            (r.0@, r.1@) == self@.run(source@, action@, current_dir@, cache_dir@),
    {
        if !action.execute {
            return self.finish(Ok(0));
        }
        match source.as_input().try_base_path(current_dir.as_str()) {
            None => self.finish(
                Err(
                    MainError::internal(
                        "couldn't get parent directory for file input base path",
                    ),
                ),
            ),
            Some(base_path) => {
                let plan: RunPlan = self.make_plan(
                    &source,
                    &action,
                    base_path.as_str(),
                    cache_dir.as_str(),
                );
                (Session { stage: Stage::Running, ..self }, Command::Run { plan })
            },
        }
    }

    /// What follows after the script file was looked for.
    fn read(self, event: Event) -> (r: (Session, Command))
        requires
            self@.stage is Reading,
            self@.args.script is Some,
            self@.expects(event@),
        ensures
            (r.0@, r.1@) == self@.next(event@),
    {
        match event {
            Event::ReadFailed { error } => self.end(None, Err(error)),
            Event::ScriptRead { path, body, modified, current_dir } => {
                let name: String = paths::script_name(path.as_str());
                let path: String = paths::join(current_dir.as_str(), path.as_str());
                self.prepare(Source::File { name, path, content: body, modified })
            },
            _ => {
                let mut message: String = "could not find script '".to_owned();
                match &self.args.script {
                    Some(script) => message.append(script.as_str()),
                    None => {},
                }
                message.append("'");
                self.end(None, Err(MainError::internal(message.as_str())))
            },
        }
    }

    /// Goes on with the run: takes what came of the last command, and gives the next one.
    pub fn step(self, event: Event) -> (r: (Session, Command))
        requires
            self@.valid(),
            self@.expects(event@),
        ensures
            (r.0@, r.1@) == self@.next(event@),
            r.0@.valid(),
    {
        let Session { args, color, stage } = self;
        match stage {
            Stage::Start => {
                if args.clear_cache {
                    (
                        Session { args, color, stage: Stage::Clearing },
                        Command::CleanCache { max_age: 0 },
                    )
                } else {
                    Session { args, color, stage: Stage::Start }.open_input()
                }
            },
            Stage::Clearing => {
                let session: Session = Session { args, color, stage: Stage::Clearing };
                match event {
                    Event::Cleaned { result: Err(e) } => session.end(None, Err(e)),
                    _ => if session.args.script.is_none() {
                        // Just let the user know that we did *actually* run.
                        session.end(Some("`cargo eval` cache cleared.".to_owned()), Ok(0))
                    } else {
                        session.open_input()
                    },
                }
            },
            Stage::Reading => Session { args, color, stage: Stage::Reading }.read(event),
            Stage::Deciding { source } => {
                match event {
                    Event::Decided { action: Ok(action) } => (
                        Session { args, color, stage: Stage::Generating { source, action } },
                        Command::Generate,
                    ),
                    Event::Decided { action: Err(e) } => Session {
                        args,
                        color,
                        stage: Stage::Over,
                    }.end(None, Err(e)),
                    _ => Session { args, color, stage: Stage::Over }.end(None, Ok(0)),
                }
            },
            Stage::Generating { source, action } => {
                let session: Session = Session { args, color, stage: Stage::Over };
                match event {
                    Event::Generated { result: Ok(()), current_dir, cache_dir } => session.run(
                        source,
                        action,
                        current_dir,
                        cache_dir,
                    ),
                    Event::Generated { result: Err(e), .. } => session.end(None, Err(e)),
                    _ => session.end(None, Ok(0)),
                }
            },
            Stage::Running => {
                let session: Session = Session { args, color, stage: Stage::Over };
                match event {
                    Event::Ran { status: Ok(Some(code)) } => session.finish(Ok(code)),
                    Event::Ran { status: Ok(None) } => session.finish(Ok(1)),
                    Event::Ran { status: Err(e) } => session.finish(Err(e)),
                    _ => session.end(None, Ok(0)),
                }
            },
            Stage::Closing { result } => Session { args, color, stage: Stage::Over }.end(
                None,
                result,
            ),
            Stage::Over => Session { args, color, stage: Stage::Over }.end(None, Ok(0)),
        }
    }
}

impl StageView {
    /// How far a run has got, as a number.
    pub open spec fn rank(self) -> nat {
        match self {
            StageView::Start => 0,
            StageView::Clearing => 1,
            StageView::Reading => 2,
            StageView::Deciding { .. } => 3,
            StageView::Generating { .. } => 4,
            StageView::Running => 5,
            StageView::Closing { .. } => 6,
            StageView::Over => 7,
        }
    }
}

/// A run only ever goes forward, and so ends after at most seven steps; it is over exactly when
/// the command is to return.
pub proof fn runs_go_forward(session: SessionView, event: EventView)
    requires
        session.valid(),
        session.expects(event),
    ensures
        session.next(event).0.valid(),
        session.next(event).0.args == session.args,
        session.next(event).0.stage.rank() > session.stage.rank(),
        session.next(event).0.stage is Over <==> session.next(event).1 is Return,
{
}

/// The cache is cleared exactly where that is asked for, and before anything else is done, even
/// before the script is read.  Old packages are thrown out of it only where it has not been
/// cleared, and only once the package has been generated.
pub proof fn when_the_cache_is_cleaned(session: SessionView, event: EventView, age: u128)
    requires
        session.valid(),
        session.expects(event),
    ensures
        session.stage is Start && session.args.clear_cache ==> session.next(event).1 == (
        CommandView::CleanCache { max_age: 0 }),
        session.next(event).1 == (CommandView::CleanCache { max_age: age }) ==> {
            ||| session.stage is Start && session.args.clear_cache && age == 0
            ||| (session.stage is Generating || session.stage is Running)
                && !session.args.clear_cache && age == MAX_CACHE_AGE_MS
        },
{
}

/// Clearing the cache needs no script: without one the run then ends well, with a notice.
pub proof fn clearing_needs_no_script(session: SessionView)
    requires
        session.valid(),
        session.stage is Start,
        session.args.clear_cache,
        session.args.script is None,
    ensures
        session.next(EventView::Begin).0.next(EventView::Cleaned { result: Ok(()) }).1 == (
        CommandView::Return { notice: Some("`cargo eval` cache cleared."@), result: Ok(0) }),
{
}

/// Clearing the cache also acts as a synonym for forcing a compile.  It comes before anything is
/// decided, and throws out the package of a script that is kept in the cache, if it is there and its
/// metadata was not modified after now.  Then no metadata can be loaded, so that a regular script is
/// compiled, by the very steps by which it would be if that were forced, and is run just the same.
pub proof fn clearing_acts_as_forcing(
    session: SessionView,
    source: InputView,
    deps: Seq<(Seq<char>, Seq<char>)>,
    prelude: Seq<Seq<char>>,
    manifest: Seq<char>,
    script: Seq<char>,
    cache_dir: Seq<char>,
    entries: Seq<CacheEntryView>,
    now: u128,
    bin_is_dir: bool,
    exe_exists: bool,
    found: Option<Seq<char>>,
)
    requires
        session.valid(),
        session.stage is Start,
        session.args.clear_cache,
        session.args.pkg_path is None,
    ensures
        session.next(EventView::Begin).1 == (CommandView::CleanCache { max_age: 0 }),
        forall|i: int|
            0 <= i < entries.len() && (#[trigger] entries[i]).path == action::input_pkg_path(
                source,
                deps,
                session.args,
                cache_dir,
            ) && !entries[i].is_file && (entries[i].meta_mtime matches Some(mtime) ==> mtime <= now)
                ==> cache::removals(0, now, bin_is_dir, entries, cache_dir).contains(
                entries[i].path,
            ),
        ({
            let args = session.args;
            let forced = ArgsView { force: true, ..args };
            let only = args.gen_pkg_only;
            let after_clearing = action::settled(
                action::first_action(source, deps, prelude, args, manifest, script, cache_dir),
                only,
                None,
                exe_exists,
                found,
            );
            let after_forcing = action::settled(
                action::first_action(source, deps, prelude, forced, manifest, script, cache_dir),
                only,
                None,
                exe_exists,
                found,
            );
            &&& args.build_kind == BuildKind::Normal && !only ==> after_clearing.compile
            &&& after_clearing.compile == after_forcing.compile
            &&& after_clearing.execute == after_forcing.execute
            &&& generate::generation(source, after_clearing, session.color, cache_dir)
                == generate::generation(source, after_forcing, session.color, cache_dir)
        }),
{
    let pkg_path = action::input_pkg_path(source, deps, session.args, cache_dir);
    assert forall|i: int|
        0 <= i < entries.len() && (#[trigger] entries[i]).path == pkg_path && !entries[i].is_file
            && (entries[i].meta_mtime matches Some(mtime) ==> mtime <= now) implies cache::removals(
        0,
        now,
        bin_is_dir,
        entries,
        cache_dir,
    ).contains(entries[i].path) by {
        cache::clearing_leaves_no_package(entries, i, now, bin_is_dir, cache_dir);
    }
}

/// The status that a script ends with is the exit code of the program, and that is one where
/// there is none, whatever comes of throwing out old packages.
pub proof fn status_becomes_exit_code(
    session: SessionView,
    status: Option<i32>,
    cleaned: Result<(), MainErrorView>,
)
    requires
        session.valid(),
        session.stage is Running,
    ensures
        ({
            let (after, command) = session.next(EventView::Ran { status: Ok(status) });
            let ended = CommandView::Return { notice: None, result: Ok(exit_code(status)) };
            if session.args.clear_cache {
                command == ended
            } else {
                after.next(EventView::Cleaned { result: cleaned }).1 == ended
            }
        }),
{
}

/// An error ends the run and is what it returns; old packages are thrown out before only where
/// the script was to be run.
pub proof fn errors_are_returned(
    session: SessionView,
    error: MainErrorView,
    cleaned: Result<(), MainErrorView>,
    current_dir: Seq<char>,
    cache_dir: Seq<char>,
)
    requires
        session.valid(),
    ensures
        ({
            let ended = CommandView::Return { notice: None, result: Err(error) };
            &&& session.stage is Clearing ==> session.next(
                EventView::Cleaned { result: Err(error) },
            ).1 == ended
            &&& session.stage is Reading ==> session.next(EventView::ReadFailed { error }).1
                == ended
            &&& session.stage is Deciding ==> session.next(
                EventView::Decided { action: Err(error) },
            ).1 == ended
            &&& session.stage is Generating ==> session.next(
                EventView::Generated { result: Err(error), current_dir, cache_dir },
            ).1 == ended
            &&& session.stage is Running ==> {
                let (after, command) = session.next(EventView::Ran { status: Err(error) });
                if session.args.clear_cache {
                    command == ended
                } else {
                    after.next(EventView::Cleaned { result: cleaned }).1 == ended
                }
            }
        }),
{
}

/// What is decided on is decided on with sorted lists: of the packages that the dependencies
/// name, each once, and of the lines for the unstable features.
pub proof fn decisions_get_sorted_lists(session: SessionView, event: EventView)
    requires
        session.valid(),
        session.expects(event),
    ensures
        session.next(event).1 matches CommandView::Decide { deps, prelude } ==> {
            &&& deps::acceptable(session.args.dep)
            &&& deps::lists(deps, deps::dep_map(session.args.dep)->Ok_0)
            &&& sorted_by(prelude, deps::text_le())
        },
{
    deps::accepted_deps(session.args.dep);
    deps::accepted_deps_are_listed(session.args.dep);
    deps::text_le_total();
    session.args.unstable_features.map_values(
        |f: Seq<char>| deps::feature_item(f),
    ).lemma_sort_by_ensures(deps::text_le());
}

/// Where a package is compiled, the path of its executable is kept in the very file from which
/// it is read when the script is run.
pub proof fn kept_executable_is_found(
    session: SessionView,
    source: InputView,
    action: InputActionView,
    base_path: Seq<char>,
    cache_dir: Seq<char>,
)
    requires
        action.compile,
        action.build_kind == BuildKind::Normal,
    ensures
        ({
            let kept_in = paths::exe_path_file(action.pkg_path);
            &&& generate::all_steps(source, action, session.color, cache_dir).contains(
                StepView::FindTarget {
                    command: cargo::target_command(
                        action.manifest_path(),
                        action.use_bincache,
                        action.metadata,
                        session.color,
                        cache_dir,
                    ),
                    package_name: source.package_name(),
                    cache_path: kept_in,
                },
            )
            &&& session.run_plan(source, action, base_path, cache_dir) == (RunPlanView::Exec {
                exe_path_file: kept_in,
                args: session.args.args,
                env: script_env(source, base_path),
            })
        }),
{
    let steps = generate::all_steps(source, action, session.color, cache_dir);
    let files = generate::file_steps(source, action);
    let compile = generate::compile_steps(source, action, session.color, cache_dir);
    assert(steps[files.len() + 2int] == compile[2]);
}

} // verus!
