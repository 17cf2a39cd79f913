//! What happens in a run of the program, event by event.
use vstd::prelude::*;
use vstd::string::*;
use crate::action::InputActionView;
use crate::args::ArgsView;
use crate::build_kind::BuildKind;
use crate::deps;
use crate::error::{Blame, MainErrorView};
use crate::input::InputView;
use crate::paths;
use crate::session::{self, CommandView, EventView, RunPlanView, SessionView, StageView};

verus! {

/// Arguments make sense together exactly where there is a script that is not asked to be two things
/// at once, or none and the cache is to be cleared.  A run may be at any stage with them, but reads a
/// script file only where there is a script.
pub proof fn which_runs_make_sense(session: SessionView)
    ensures
        session.args.script is Some && !(session.args.expr && session.args.loop_)
            ==> session::runnable(session.args),
        session.args.script is Some && session.args.expr && session.args.loop_
            ==> !session::runnable(session.args),
        session.args.script is None ==> (session::runnable(session.args)
            <==> session.args.clear_cache),
        session.valid() <==> session::runnable(session.args) && (session.stage is Reading
            ==> session.args.script is Some),
{
}

/// At each stage, what can happen is what the last command leads to.
pub proof fn what_can_happen(session: SessionView, event: EventView)
    ensures
        session.stage is Start ==> (session.expects(event) <==> event is Begin),
        session.stage is Clearing || session.stage is Closing ==> (session.expects(event)
            <==> event is Cleaned),
        session.stage is Reading ==> (session.expects(event) <==> event is ScriptMissing
            || event is ReadFailed || event is ScriptRead),
        session.stage is Deciding ==> (session.expects(event) <==> event is Decided),
        session.stage is Generating ==> (session.expects(event) <==> event is Generated),
        session.stage is Running ==> (session.expects(event) <==> event is Ran),
        session.stage is Over ==> !session.expects(event),
{
}

/// What the user asks for, and whether there are colors, never changes in a run.
pub proof fn runs_keep_what_was_asked(session: SessionView, event: EventView)
    requires
        session.valid(),
        session.expects(event),
    ensures
        session.next(event).0.args == session.args,
        session.next(event).0.color == session.color,
{
}

/// Whether what comes next is that the script is taken up: nothing has to be cleared, or that has
/// been done, and there is a script.
pub open spec fn script_is_next(session: SessionView, event: EventView) -> bool {
    session.args.script is Some && {
        ||| session.stage is Start && !session.args.clear_cache && event is Begin
        ||| session.stage is Clearing && event == (EventView::Cleaned { result: Ok(()) })
    }
}

/// A loop is taken up as it is on the command line: with the script as its content, and counting
/// exactly where `--count` is given.
pub proof fn loops_are_taken_up(session: SessionView, event: EventView)
    requires
        session.valid(),
        script_is_next(session, event),
        session.args.loop_,
        deps::dep_list(session.args.dep) is Ok,
    ensures
        session.next(event).0.stage matches StageView::Deciding { source } && (
        source matches InputView::Loop(content, count) && content == session.args.script->0 && (
        count <==> session.args.count)),
{
}

/// An expression is taken up as it is on the command line: with the script as its content, and with
/// the template that is given, if one is.
pub proof fn expressions_are_taken_up(session: SessionView, event: EventView)
    requires
        session.valid(),
        script_is_next(session, event),
        session.args.expr,
        deps::dep_list(session.args.dep) is Ok,
    ensures
        session.next(event).0.stage matches StageView::Deciding { source } && (
        source matches InputView::Expr(content, template) && content == session.args.script->0
            && template == session.args.template),
{
}

/// What is neither an expression nor a loop is the path of a script file, which is to be read.
pub proof fn script_files_are_read(session: SessionView, event: EventView)
    requires
        session.valid(),
        script_is_next(session, event),
        !session.args.expr,
        !session.args.loop_,
    ensures
        session.next(event).0.stage is Reading,
        session.next(event).1 matches CommandView::ReadScript { script } && script
            == session.args.script->0,
{
}

/// A script file that was read is taken up with what was read: its body and its modification time,
/// the path under which it was found, seen from the current directory, and the name of the file.
pub proof fn read_files_are_taken_up(
    session: SessionView,
    path: Seq<char>,
    body: Seq<char>,
    modified: u128,
    current_dir: Seq<char>,
)
    requires
        session.valid(),
        session.stage is Reading,
        deps::dep_list(session.args.dep) is Ok,
    ensures
        session.next(
            EventView::ScriptRead { path, body, modified, current_dir },
        ).0.stage matches StageView::Deciding { source } && (source matches InputView::File(
            name,
            full,
            content,
            time,
        ) && full == paths::path_join(current_dir, path) && content == body && time == modified && (
        paths::path_stem(path) matches Some(stem) ==> name == stem) && (paths::path_stem(
            path,
        ) is None ==> name == "unknown"@)),
{
}

/// A script is decided on with the dependencies and the features that are asked for, sorted out; and
/// where the dependencies are refused, that is how the run ends.
pub proof fn scripts_are_decided_on(
    session: SessionView,
    event: EventView,
    path: Seq<char>,
    body: Seq<char>,
    modified: u128,
    current_dir: Seq<char>,
)
    requires
        session.valid(),
        script_is_next(session, event) && (session.args.expr || session.args.loop_)
            || session.stage is Reading && event == (EventView::ScriptRead {
            path,
            body,
            modified,
            current_dir,
        }),
    ensures
        deps::dep_list(session.args.dep) matches Ok(list) ==> session.next(event).1 == (
        CommandView::Decide { deps: list, prelude: deps::prelude_list(
            session.args.unstable_features,
        ) }),
        deps::dep_list(session.args.dep) matches Err(e) ==> session.next(event).0.stage is Over
            && session.next(event).1 == (CommandView::Return { notice: None, result: Err(e) }),
{
}

/// A script file that is nowhere to be found ends the run with an error that names it; so does one
/// that cannot be read, with the error that came of reading it.
pub proof fn missing_scripts_end_the_run(session: SessionView, error: MainErrorView)
    requires
        session.valid(),
        session.stage is Reading,
    ensures
        session.next(EventView::ScriptMissing).1 matches CommandView::Return {
            notice: None,
            result: Err(e),
        } && e.blame == Blame::Internal && e.message == "could not find script '"@
            + session.args.script->0 + "'"@,
        session.next(EventView::ReadFailed { error }).1 == (CommandView::Return {
            notice: None,
            result: Err(error),
        }),
{
}

/// A run starts by clearing the cache completely where that is asked for.  If that fails, the run
/// ends with the error; if it succeeds and there is no script, it ends well and says so.
pub proof fn clearing_comes_first(session: SessionView, error: MainErrorView)
    requires
        session.valid(),
        session.args.clear_cache,
    ensures
        session.stage is Start ==> session.next(EventView::Begin).0.stage is Clearing
            && session.next(EventView::Begin).1 == (CommandView::CleanCache { max_age: 0 }),
        session.stage is Clearing ==> session.next(EventView::Cleaned { result: Err(error) }).1 == (
        CommandView::Return { notice: None, result: Err(error) }),
        session.stage is Clearing && session.args.script is None ==> session.next(
            EventView::Cleaned { result: Ok(()) },
        ).1 == (CommandView::Return {
            notice: Some("`cargo eval` cache cleared."@),
            result: Ok(0),
        }),
{
}

/// What was decided on is generated, for the script that it was decided on for; where nothing could
/// be decided, the run ends with the error.
pub proof fn decisions_are_carried_out(
    session: SessionView,
    source: InputView,
    action: InputActionView,
    error: MainErrorView,
)
    requires
        session.valid(),
        session.stage == (StageView::Deciding { source }),
    ensures
        session.next(EventView::Decided { action: Ok(action) }).0.stage == (StageView::Generating {
            source,
            action,
        }),
        session.next(EventView::Decided { action: Ok(action) }).1 == CommandView::Generate,
        session.next(EventView::Decided { action: Err(error) }).0.stage is Over,
        session.next(EventView::Decided { action: Err(error) }).1 == (CommandView::Return {
            notice: None,
            result: Err(error),
        }),
{
}

/// Whether the run comes to its end with the given result: at once where the cache has been cleared,
/// and otherwise after packages have been thrown out of it that are a week old or older, whatever
/// comes of that.
pub open spec fn ends_with(
    after: (SessionView, CommandView),
    cleared: bool,
    result: Result<i32, MainErrorView>,
    cleaned: Result<(), MainErrorView>,
) -> bool {
    let last = CommandView::Return { notice: None, result };
    if cleared {
        after.0.stage is Over && after.1 == last
    } else {
        &&& after.1 == (CommandView::CleanCache { max_age: 604_800_000 })
        &&& after.0.stage is Closing
        &&& after.0.next(EventView::Cleaned { result: cleaned }).0.stage is Over
        &&& after.0.next(EventView::Cleaned { result: cleaned }).1 == last
    }
}

/// A package that could not be generated ends the run with the error.  One that could is run where
/// it is to be, and otherwise the run ends well.
pub proof fn packages_are_run_if_they_are_to_be(
    session: SessionView,
    source: InputView,
    action: InputActionView,
    current_dir: Seq<char>,
    cache_dir: Seq<char>,
    error: MainErrorView,
    cleaned: Result<(), MainErrorView>,
)
    requires
        session.valid(),
        session.stage == (StageView::Generating { source, action }),
    ensures
        ({
            let failed = session.next(
                EventView::Generated { result: Err(error), current_dir, cache_dir },
            );
            failed.0.stage is Over && failed.1 == (CommandView::Return {
                notice: None,
                result: Err(error),
            })
        }),
        ({
            let after = session.next(
                EventView::Generated { result: Ok(()), current_dir, cache_dir },
            );
            let homeless = source matches InputView::File(_, path, _, _) && paths::path_parent(
                path,
            ) is None;
            &&& !action.execute ==> ends_with(after, session.args.clear_cache, Ok(0), cleaned)
            &&& action.execute && homeless ==> ends_with(
                after,
                session.args.clear_cache,
                Err(
                    MainErrorView {
                        blame: Blame::Internal,
                        message: "couldn't get parent directory for file input base path"@,
                    },
                ),
                cleaned,
            )
            &&& action.execute && !homeless ==> after.0.stage is Running && after.1 is Run
        }),
{
}

/// Whether the variables for a script say where it is, what it and its package are called, and where
/// its relative paths start from.
pub open spec fn tells_the_script(
    env: Seq<(Seq<char>, Seq<char>)>,
    source: InputView,
    current_dir: Seq<char>,
) -> bool {
    &&& env.len() == 4
    &&& env[0].0 == "CARGO_EVAL_SCRIPT_PATH"@
    &&& source matches InputView::File(_, path, _, _) ==> env[0].1 == path
    &&& !(source is File) ==> env[0].1 == ""@
    &&& env[1] == ("CARGO_EVAL_SAFE_NAME"@, source.safe_name())
    &&& env[2] == ("CARGO_EVAL_PKG_NAME"@, source.package_name())
    &&& env[3].0 == "CARGO_EVAL_BASE_PATH"@
    &&& source matches InputView::File(_, path, _, _) ==> paths::path_parent(path) == Some(env[3].1)
    &&& !(source is File) ==> env[3].1 == current_dir
}

/// A regular script is run by its executable, which is noted in the package, with the arguments that
/// are given for it; tests and benchmarks are run by Cargo, on the package.  Each is told about the
/// script by its environment.
pub proof fn scripts_are_run_as_they_are_to_be(
    session: SessionView,
    source: InputView,
    action: InputActionView,
    current_dir: Seq<char>,
    cache_dir: Seq<char>,
)
    requires
        session.valid(),
        session.stage == (StageView::Generating { source, action }),
        action.execute,
        source matches InputView::File(_, path, _, _) ==> paths::path_parent(path) is Some,
    ensures
        ({
            let command = session.next(
                EventView::Generated { result: Ok(()), current_dir, cache_dir },
            ).1;
            &&& command is Run
            &&& action.build_kind == BuildKind::Normal ==> (
            command->plan matches RunPlanView::Exec { exe_path_file, args, env } && exe_path_file
                == paths::path_join(action.pkg_path, "target.exe_path"@) && args
                == session.args.args && tells_the_script(env, source, current_dir))
            &&& action.build_kind == BuildKind::Test ==> (
            command->plan matches RunPlanView::Cargo { command: cmd, env } && cmd == action.cargo(
                "test"@,
                session.color,
                cache_dir,
            ) && tells_the_script(env, source, current_dir))
            &&& action.build_kind == BuildKind::Bench ==> (
            command->plan matches RunPlanView::Cargo { command: cmd, env } && cmd == action.cargo(
                "bench"@,
                session.color,
                cache_dir,
            ) && tells_the_script(env, source, current_dir))
        }),
{
}

/// A script that was run ends the run with its status, or with one where it was killed; one that
/// could not be run with the error.
pub proof fn scripts_end_the_run(
    session: SessionView,
    code: i32,
    error: MainErrorView,
    cleaned: Result<(), MainErrorView>,
)
    requires
        session.valid(),
        session.stage is Running,
    ensures
        ends_with(
            session.next(EventView::Ran { status: Ok(Some(code)) }),
            session.args.clear_cache,
            Ok(code),
            cleaned,
        ),
        ends_with(
            session.next(EventView::Ran { status: Ok(None) }),
            session.args.clear_cache,
            Ok(1),
            cleaned,
        ),
        ends_with(
            session.next(EventView::Ran { status: Err(error) }),
            session.args.clear_cache,
            Err(error),
            cleaned,
        ),
{
}

} // verus!
