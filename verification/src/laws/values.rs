//! What values say, in the terms in which the contracts speak, is what they hold.
use vstd::prelude::*;
use vstd::string::*;
use crate::action::{self, Decision, DecisionView, InputAction, InputActionView};
use crate::args::Args;
use crate::cache::{self, CacheEntry};
use crate::cargo::{self, BuildMessage, CargoCommand};
use crate::deps;
use crate::error::{self, MainError, MainErrorView};
use crate::generate::{self, FileOverwrite, Next, NextView, Step, StepView};
use crate::input::{Input, InputView};
use crate::metadata::PackageMetadata;
use crate::session::{
    self, Command, CommandView, Event, EventView, RunPlan, RunPlanView, Session, Source, Stage,
    StageView,
};
use crate::text;

verus! {

/// A list of texts says the same as its items, in their order; an optional text the same as the
/// text, if there is one.
pub proof fn lists_say_what_they_hold(
    v: Seq<String>,
    pairs: Seq<(String, String)>,
    i: int,
    s: String,
    t: &str,
)
    ensures
        text::texts(v).len() == v.len(),
        0 <= i < v.len() ==> text::texts(v)[i] == v[i]@,
        text::text_pairs(pairs).len() == pairs.len(),
        0 <= i < pairs.len() ==> text::text_pairs(pairs)[i] == (pairs[i].0@, pairs[i].1@),
        text::opt_text(Some(s)) == Some(s@),
        text::opt_text(None) is None,
        text::opt_str(Some(t)) == Some(t@),
        text::opt_str(None) is None,
{
}

/// Arguments say what they hold.
pub proof fn arguments_say_what_they_hold(args: Args)
    ensures
        args@.script == text::opt_text(args.script),
        args@.args == text::texts(args.args@),
        args@.features == text::opt_text(args.features),
        args@.expr == args.expr,
        args@.loop_ == args.loop_,
        args@.count == args.count,
        args@.pkg_path == text::opt_text(args.pkg_path),
        args@.gen_pkg_only == args.gen_pkg_only,
        args@.build_only == args.build_only,
        args@.clear_cache == args.clear_cache,
        args@.debug == args.debug,
        args@.dep == text::texts(args.dep@),
        args@.force == args.force,
        args@.unstable_features == text::texts(args.unstable_features@),
        args@.use_bincache == args.use_bincache,
        args@.build_kind == args.build_kind,
        args@.template == text::opt_text(args.template),
{
}

/// Metadata says what it holds.
pub proof fn metadata_says_what_it_holds(m: PackageMetadata)
    ensures
        m@.path == text::opt_text(m.path),
        m@.modified == m.modified,
        m@.template == text::opt_text(m.template),
        m@.debug == m.debug,
        m@.deps == text::text_pairs(m.deps@),
        m@.prelude == text::texts(m.prelude@),
        m@.features == text::opt_text(m.features),
        m@.manifest_hash == m.manifest_hash@,
        m@.script_hash == m.script_hash@,
{
}

/// An action says what it holds.
pub proof fn actions_say_what_they_hold(a: InputAction)
    ensures
        a@.compile == a.compile,
        a@.force_compile == a.force_compile,
        a@.emit_metadata == a.emit_metadata,
        a@.execute == a.execute,
        a@.pkg_path == a.pkg_path@,
        a@.using_cache == a.using_cache,
        a@.use_bincache == a.use_bincache,
        a@.metadata == a.metadata@,
        a.old_metadata is None ==> a@.old_metadata is None,
        a.old_metadata matches Some(m) ==> a@.old_metadata == Some(m@),
        a@.manifest == a.manifest@,
        a@.script == a.script@,
        a@.build_kind == a.build_kind,
        Decision::Act(a)@ == DecisionView::Act(a@),
        Decision::NeedMetadata(a)@ == DecisionView::NeedMetadata(a@),
        Decision::NeedExe(a)@ == DecisionView::NeedExe(a@),
        Decision::NeedMetaHash(a)@ == DecisionView::NeedMetaHash(a@),
{
}

/// An input, and the source that it is taken from, says what it holds.
pub proof fn inputs_say_what_they_hold(
    name: String,
    path: String,
    content: String,
    modified: u128,
    template: Option<String>,
    count: bool,
    borrowed: &str,
    tail: Option<&str>,
)
    ensures
        (Source::File { name, path, content, modified })@ == InputView::File(
            name@,
            path@,
            content@,
            modified,
        ),
        (Source::Expr { content, template })@ == InputView::Expr(content@, text::opt_text(template)),
        (Source::Loop { content, count })@ == InputView::Loop(content@, count),
        Input::Expr(borrowed, tail)@ == InputView::Expr(borrowed@, text::opt_str(tail)),
        Input::Loop(borrowed, count)@ == InputView::Loop(borrowed@, count),
{
}

/// The input that is a script file says what it holds.
pub proof fn file_inputs_say_what_they_hold(
    name: &str,
    path: &str,
    content: &str,
    modified: u128,
)
    ensures
        Input::File(name, path, content, modified)@ == InputView::File(
            name@,
            path@,
            content@,
            modified,
        ),
{
}

/// A session says what it holds.
pub proof fn sessions_say_what_they_hold(
    session: Session,
    source: Source,
    action: InputAction,
    code: i32,
    error: MainError,
)
    ensures
        session@.args == session.args@,
        session@.color == session.color,
        session@.stage == session.stage@,
        (Stage::Start)@ == StageView::Start,
        (Stage::Clearing)@ == StageView::Clearing,
        (Stage::Reading)@ == StageView::Reading,
        (Stage::Deciding { source })@ == (StageView::Deciding { source: source@ }),
        (Stage::Generating { source, action })@ == (StageView::Generating {
            source: source@,
            action: action@,
        }),
        (Stage::Running)@ == StageView::Running,
        (Stage::Closing { result: Ok(code) })@ == (StageView::Closing { result: Ok(code) }),
        (Stage::Closing { result: Err(error) })@ == (StageView::Closing { result: Err(error@) }),
        (Stage::Over)@ == StageView::Over,
        error@.blame == error.blame,
        error@.message == error.message@,
{
}

/// A command says what it holds.
pub proof fn commands_say_what_they_hold(
    max_age: u128,
    script: String,
    deps: Vec<(String, String)>,
    prelude: Vec<String>,
    plan: RunPlan,
    notice: Option<String>,
    code: i32,
    error: MainError,
)
    ensures
        (Command::CleanCache { max_age })@ == (CommandView::CleanCache { max_age }),
        (Command::ReadScript { script })@ == (CommandView::ReadScript { script: script@ }),
        (Command::Decide { deps, prelude })@ == (CommandView::Decide {
            deps: text::text_pairs(deps@),
            prelude: text::texts(prelude@),
        }),
        (Command::Generate)@ == CommandView::Generate,
        (Command::Run { plan })@ == (CommandView::Run { plan: plan@ }),
        (Command::Return { notice, result: Ok(code) })@ == (CommandView::Return {
            notice: text::opt_text(notice),
            result: Ok(code),
        }),
        (Command::Return { notice, result: Err(error) })@ == (CommandView::Return {
            notice: text::opt_text(notice),
            result: Err(error@),
        }),
{
}

/// How a script and a Cargo command are run says what it holds.
pub proof fn plans_say_what_they_hold(
    exe_path_file: String,
    args: Vec<String>,
    env: Vec<(String, String)>,
    command: CargoCommand,
)
    ensures
        (RunPlan::Exec { exe_path_file, args, env })@ == (RunPlanView::Exec {
            exe_path_file: exe_path_file@,
            args: text::texts(args@),
            env: text::text_pairs(env@),
        }),
        (RunPlan::Cargo { command, env })@ == (RunPlanView::Cargo {
            command: command@,
            env: text::text_pairs(env@),
        }),
        command@.args == text::texts(command.args@),
        command@.target_dir == text::opt_text(command.target_dir),
{
}

/// An event says what it holds.
pub proof fn events_say_what_they_hold(
    path: String,
    body: String,
    modified: u128,
    current_dir: String,
    cache_dir: String,
    action: InputAction,
    status: Option<i32>,
    error: MainError,
)
    ensures
        (Event::Begin)@ == EventView::Begin,
        (Event::Cleaned { result: Ok(()) })@ == (EventView::Cleaned { result: Ok(()) }),
        (Event::Cleaned { result: Err(error) })@ == (EventView::Cleaned { result: Err(error@) }),
        (Event::ScriptMissing)@ == EventView::ScriptMissing,
        (Event::ReadFailed { error })@ == (EventView::ReadFailed { error: error@ }),
        (Event::ScriptRead { path, body, modified, current_dir })@ == (EventView::ScriptRead {
            path: path@,
            body: body@,
            modified,
            current_dir: current_dir@,
        }),
        (Event::Decided { action: Ok(action) })@ == (EventView::Decided { action: Ok(action@) }),
        (Event::Decided { action: Err(error) })@ == (EventView::Decided { action: Err(error@) }),
        (Event::Generated { result: Ok(()), current_dir, cache_dir })@ == (EventView::Generated {
            result: Ok(()),
            current_dir: current_dir@,
            cache_dir: cache_dir@,
        }),
        (Event::Generated { result: Err(error), current_dir, cache_dir })@ == (EventView::Generated {
            result: Err(error@),
            current_dir: current_dir@,
            cache_dir: cache_dir@,
        }),
        (Event::Ran { status: Ok(status) })@ == (EventView::Ran { status: Ok(status) }),
        (Event::Ran { status: Err(error) })@ == (EventView::Ran { status: Err(error@) }),
{
}

/// A step, and what follows after one, says what it holds.
pub proof fn steps_say_what_they_hold(
    path: String,
    content: String,
    command: CargoCommand,
    metadata: PackageMetadata,
    index: usize,
    error: MainError,
)
    ensures
        (Step::CreateDir { path })@ == (StepView::CreateDir { path: path@ }),
        (Step::WriteFile { path, content })@ == (StepView::WriteFile {
            path: path@,
            content: content@,
        }),
        (Step::Build { command })@ == (StepView::Build { command: command@ }),
        (Step::FindTarget { command, package_name: content, cache_path: path })@ == (
        StepView::FindTarget { command: command@, package_name: content@, cache_path: path@ }),
        (Step::SaveMetadata { path, metadata })@ == (StepView::SaveMetadata {
            path: path@,
            metadata: metadata@,
        }),
        (Next::Continue { index, pending: None })@ == (NextView::Continue {
            index: index as int,
            pending: None,
        }),
        (Next::Continue { index, pending: Some(error) })@ == (NextView::Continue {
            index: index as int,
            pending: Some(error@),
        }),
        (Next::Done)@ == NextView::Done,
        (Next::Abort { remove: Some(path), error })@ == (NextView::Abort {
            remove: Some(path@),
            error: error@,
        }),
        (Next::Abort { remove: None, error })@ == (NextView::Abort { remove: None, error: error@ }),
{
}

/// What comes of an operation says what it holds, be it what was asked for or an error.
pub proof fn results_say_what_they_hold(
    action: InputAction,
    deps: Vec<(String, String)>,
    steps: Vec<Step>,
    i: int,
    hash: String,
    status: Option<i32>,
    code: i32,
    error: MainError,
    metadata: PackageMetadata,
    message: BuildMessage,
    entries: Seq<CacheEntry>,
)
    ensures
        error::result_view(Ok::<InputAction, MainError>(action)) == Ok::<
            InputActionView,
            MainErrorView,
        >(action@),
        error::result_view(Err::<InputAction, MainError>(error)) == Err::<
            InputActionView,
            MainErrorView,
        >(error@),
        error::unit_view(Ok(())) is Ok,
        error::unit_view(Err(error)) == Err::<(), MainErrorView>(error@),
        error::code_view(Ok(code)) == Ok::<i32, MainErrorView>(code),
        error::code_view(Err(error)) == Err::<i32, MainErrorView>(error@),
        deps::deps_view(Ok(deps)) == Ok::<Seq<(Seq<char>, Seq<char>)>, MainErrorView>(
            text::text_pairs(deps@),
        ),
        deps::deps_view(Err(error)) == Err::<Seq<(Seq<char>, Seq<char>)>, MainErrorView>(error@),
        generate::plan_view(Ok(steps)) == Ok::<Seq<StepView>, MainErrorView>(
            generate::steps_view(steps@),
        ),
        generate::plan_view(Err(error)) == Err::<Seq<StepView>, MainErrorView>(error@),
        generate::steps_view(steps@).len() == steps@.len(),
        0 <= i < steps@.len() ==> generate::steps_view(steps@)[i] == steps@[i]@,
        generate::overwrite_view(Ok(FileOverwrite::Same)) == Ok::<
            Option<Seq<char>>,
            MainErrorView,
        >(None),
        generate::overwrite_view(Ok((FileOverwrite::Changed { new_hash: hash }))) == Ok::<
            Option<Seq<char>>,
            MainErrorView,
        >(Some(hash@)),
        generate::overwrite_view(Err(error)) == Err::<Option<Seq<char>>, MainErrorView>(error@),
        generate::opt_error(None) is None,
        generate::opt_error(Some(error)) == Some(error@),
        session::status_view(Ok(status)) == Ok::<Option<i32>, MainErrorView>(status),
        session::status_view(Err(error)) == Err::<Option<i32>, MainErrorView>(error@),
        action::opt_metadata(None) is None,
        action::opt_metadata(Some(metadata)) == Some(metadata@),
        cargo::opt_message(None) is None,
        cargo::opt_message(Some(message)) == Some(message@),
        cache::entries_view(entries).len() == entries.len(),
        0 <= i < entries.len() ==> cache::entries_view(entries)[i] == entries[i]@,
{
}

/// A message of a build, and something in the cache, says what it holds.
pub proof fn findings_say_what_they_hold(message: BuildMessage, entry: CacheEntry)
    ensures
        message@.reason == message.reason@,
        message@.target_name == message.target_name@,
        message@.filenames == text::texts(message.filenames@),
        entry@.path == entry.path@,
        entry@.is_file == entry.is_file,
        entry@.meta_mtime == entry.meta_mtime,
{
}

} // verus!
