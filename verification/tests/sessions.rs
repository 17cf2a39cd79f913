use cargo_eval::action::{decide_action_for, Decision, InputAction};
use cargo_eval::args::{parse_args, Args, Matches, SubCommand};
use cargo_eval::consts::MAX_CACHE_AGE_MS;
use cargo_eval::error::{conclude, MainError};
use cargo_eval::generate::{gen_pkg_and_compile, Step};
use cargo_eval::input::Input;
use cargo_eval::session::{is_runnable, Command, Event, RunPlan, Session, Stage};

fn matches() -> Matches {
    Matches {
        script: Some("hello".to_string()),
        args: Some(vec!["x".to_string()]),
        features: None,
        expr: false,
        loop_: false,
        count: false,
        pkg_path: Some("/p".to_string()),
        gen_pkg_only: false,
        build_only: false,
        clear_cache: false,
        debug: false,
        dep: None,
        force: false,
        unstable_features: None,
        use_bincache: None,
        test: false,
        bench: false,
        template: None,
    }
}

fn parsed(m: Matches) -> Args {
    match parse_args::<()>(None, m) {
        SubCommand::Script(args) => args,
        SubCommand::Templates(()) => panic!("templates"),
    }
}

fn begin(m: Matches) -> (Session, Command) {
    Session::new(parsed(m), false).step(Event::Begin)
}

fn action(session: &Session) -> InputAction {
    let source = match &session.stage {
        Stage::Deciding { source } => source,
        other => panic!("{:?}", other),
    };
    let decision = decide_action_for(
        &source.as_input(),
        vec![],
        vec![],
        &session.args,
        String::new(),
        String::new(),
        "/c",
    );
    match decision.unwrap() {
        Decision::Act(action) | Decision::NeedMetadata(action) => action,
        other => panic!("{:?}", other),
    }
}

fn generated() -> Event {
    Event::Generated {
        result: Ok(()),
        current_dir: "/cwd".to_string(),
        cache_dir: "/c".to_string(),
    }
}

fn read() -> Event {
    Event::ScriptRead {
        path: "dir/hello.rs".to_string(),
        body: "fn main() {}".to_string(),
        modified: 5,
        current_dir: "/cwd".to_string(),
    }
}

/// Takes a session up to the command that follows the generation of the package.
fn up_to_run(m: Matches) -> (Session, Command) {
    let (mut session, mut command) = begin(m);
    if matches!(command, Command::CleanCache { .. }) {
        (session, command) = session.step(Event::Cleaned { result: Ok(()) });
    }
    if matches!(command, Command::ReadScript { .. }) {
        (session, command) = session.step(read());
    }
    assert!(matches!(command, Command::Decide { .. }));
    let action = action(&session);
    let (session, command) = session.step(Event::Decided { action: Ok(action) });
    assert!(matches!(command, Command::Generate));
    session.step(generated())
}

fn returned(command: Command) -> (Option<String>, Result<i32, String>) {
    match command {
        Command::Return { notice, result } => (notice, result.map_err(|e| e.message)),
        other => panic!("{:?}", other),
    }
}

#[test]
fn a_script_file_runs_from_start_to_end() {
    let (session, command) = begin(matches());
    match command {
        Command::ReadScript { script } => assert_eq!(script, "hello"),
        other => panic!("{:?}", other),
    }
    let (session, _) = session.step(read());
    match &session.stage {
        Stage::Deciding { source } => match source.as_input() {
            Input::File(name, path, content, mtime) => {
                assert_eq!(name, "hello");
                assert_eq!(path, "/cwd/dir/hello.rs");
                assert_eq!(content, "fn main() {}");
                assert_eq!(mtime, 5);
            }
            other => panic!("{:?}", other),
        },
        other => panic!("{:?}", other),
    }
    let (session, command) = up_to_run(matches());
    match command {
        Command::Run { plan: RunPlan::Exec { exe_path_file, args, env } } => {
            assert_eq!(exe_path_file, "/p/target.exe_path");
            assert_eq!(args, vec!["x".to_string()]);
            let expected = [
                ("CARGO_EVAL_SCRIPT_PATH", "/cwd/dir/hello.rs"),
                ("CARGO_EVAL_SAFE_NAME", "hello"),
                ("CARGO_EVAL_PKG_NAME", "hello"),
                ("CARGO_EVAL_BASE_PATH", "/cwd/dir"),
            ];
            assert_eq!(
                env,
                expected.iter().map(|(n, v)| (n.to_string(), v.to_string())).collect::<Vec<_>>()
            );
        }
        other => panic!("{:?}", other),
    }
    let (session, command) = session.step(Event::Ran { status: Ok(Some(3)) });
    match command {
        Command::CleanCache { max_age } => assert_eq!(max_age, MAX_CACHE_AGE_MS),
        other => panic!("{:?}", other),
    }
    let failed = Event::Cleaned { result: Err(MainError::internal("cleaning")) };
    let (session, command) = session.step(failed);
    assert_eq!(returned(command), (None, Ok(3)));
    assert!(matches!(session.stage, Stage::Over));
}

#[test]
fn the_executable_is_found_where_it_was_kept() {
    let (session, _) = begin(matches()).0.step(read());
    let mut action = action(&session);
    action.compile = true;
    let input = Input::File("hello", "/cwd/dir/hello.rs", "fn main() {}", 5);
    let steps = gen_pkg_and_compile(&input, &action, false, "/c").unwrap();
    let kept: Vec<String> = steps
        .into_iter()
        .filter_map(|step| match step {
            Step::FindTarget { cache_path, .. } => Some(cache_path),
            _ => None,
        })
        .collect();
    match up_to_run(matches()).1 {
        Command::Run { plan: RunPlan::Exec { exe_path_file, .. } } => {
            assert_eq!(kept, vec![exe_path_file])
        }
        other => panic!("{:?}", other),
    }
}

#[test]
fn arguments_have_to_make_sense_together() {
    assert!(is_runnable(&parsed(matches())));
    let mut m = matches();
    m.expr = true;
    m.loop_ = true;
    assert!(!is_runnable(&parsed(m)));
    let mut m = matches();
    m.script = None;
    assert!(!is_runnable(&parsed(m)));
    let mut m = matches();
    m.script = None;
    m.clear_cache = true;
    assert!(is_runnable(&parsed(m)));

    assert!(matches().is_consistent());
    let mut m = matches();
    m.use_bincache = Some("no".to_string());
    assert!(m.is_consistent());
    m.use_bincache = Some("maybe".to_string());
    assert!(!m.is_consistent());
    let mut m = matches();
    m.test = true;
    m.bench = true;
    assert!(!m.is_consistent());
}

#[test]
fn a_killed_script_gives_one() {
    let mut m = matches();
    m.clear_cache = true;
    let (session, _) = up_to_run(m);
    let (_, command) = session.step(Event::Ran { status: Ok(None) });
    assert_eq!(returned(command), (None, Ok(1)));
}

#[test]
fn expressions_and_loops_are_not_read() {
    let mut m = matches();
    m.expr = true;
    m.template = Some("t".to_string());
    let (session, command) = begin(m);
    assert!(matches!(command, Command::Decide { .. }));
    match session.stage {
        Stage::Deciding { source } => {
            assert!(matches!(source.as_input(), Input::Expr("hello", Some("t"))))
        }
        other => panic!("{:?}", other),
    }
    let mut m = matches();
    m.loop_ = true;
    m.count = true;
    let (session, command) = up_to_run(m);
    assert!(matches!(session.stage, Stage::Running));
    match command {
        Command::Run { plan: RunPlan::Exec { env, .. } } => {
            assert_eq!(env[0].1, "");
            assert_eq!(env[1].1, "loop");
            assert_eq!(env[3].1, "/cwd");
        }
        other => panic!("{:?}", other),
    }
}

#[test]
fn tests_are_run_by_cargo() {
    let mut m = matches();
    m.test = true;
    let (_, command) = up_to_run(m);
    match command {
        Command::Run { plan: RunPlan::Cargo { command, env } } => {
            assert_eq!(command.args, vec!["test", "--manifest-path", "/p/Cargo.toml"]);
            assert_eq!(command.target_dir, None);
            assert_eq!(env.len(), 4);
        }
        other => panic!("{:?}", other),
    }
    let mut m = matches();
    m.test = true;
    m.use_bincache = Some("yes".to_string());
    match up_to_run(m).1 {
        Command::Run { plan: RunPlan::Cargo { command, .. } } => {
            assert_eq!(command.target_dir, Some("/c/bin".to_string()));
        }
        other => panic!("{:?}", other),
    }
}

#[test]
fn what_is_only_built_is_not_run() {
    let mut m = matches();
    m.build_only = true;
    let (session, command) = up_to_run(m);
    assert!(matches!(command, Command::CleanCache { max_age: MAX_CACHE_AGE_MS }));
    let (_, command) = session.step(Event::Cleaned { result: Ok(()) });
    assert_eq!(returned(command), (None, Ok(0)));
}

#[test]
fn clearing_the_cache_needs_no_script() {
    let mut m = matches();
    m.clear_cache = true;
    m.script = None;
    let (session, command) = begin(m);
    assert!(matches!(command, Command::CleanCache { max_age: 0 }));
    let (_, command) = session.step(Event::Cleaned { result: Ok(()) });
    assert_eq!(returned(command), (Some("`cargo eval` cache cleared.".to_string()), Ok(0)));
}

#[test]
fn clearing_the_cache_comes_first_and_last() {
    let mut m = matches();
    m.clear_cache = true;
    let (session, command) = begin(m);
    assert!(matches!(command, Command::CleanCache { max_age: 0 }));
    let (_, command) = session.step(Event::Cleaned { result: Ok(()) });
    assert!(matches!(command, Command::ReadScript { .. }));
    let mut m = matches();
    m.clear_cache = true;
    m.build_only = true;
    let (_, command) = up_to_run(m);
    assert_eq!(returned(command), (None, Ok(0)));
}

#[test]
fn missing_scripts_are_errors() {
    let (session, _) = begin(matches());
    let (_, command) = session.step(Event::ScriptMissing);
    assert_eq!(returned(command), (None, Err("could not find script 'hello'".to_string())));
}

#[test]
fn errors_end_the_run() {
    let no = || MainError::human("no");
    let refused = || (None, Err("no".to_string()));
    let mut m = matches();
    m.clear_cache = true;
    let (_, command) = begin(m).0.step(Event::Cleaned { result: Err(no()) });
    assert_eq!(returned(command), refused());
    let (_, command) = begin(matches()).0.step(Event::ReadFailed { error: no() });
    assert_eq!(returned(command), refused());
    let (session, _) = begin(matches()).0.step(read());
    let (_, command) = session.step(Event::Decided { action: Err(no()) });
    assert_eq!(returned(command), refused());
    let (session, _) = begin(matches()).0.step(read());
    let action = action(&session);
    let (session, _) = session.step(Event::Decided { action: Ok(action) });
    let failed = Event::Generated {
        result: Err(no()),
        current_dir: String::new(),
        cache_dir: String::new(),
    };
    let (_, command) = session.step(failed);
    assert_eq!(returned(command), refused());
    let (session, _) = up_to_run(matches());
    let (session, command) = session.step(Event::Ran { status: Err(no()) });
    assert!(matches!(command, Command::CleanCache { .. }));
    let (_, command) = session.step(Event::Cleaned { result: Ok(()) });
    assert_eq!(returned(command), refused());
}

#[test]
fn bad_dependencies_end_the_run() {
    let mut m = matches();
    m.expr = true;
    m.dep = Some(vec!["a=".to_string()]);
    let (_, command) = begin(m);
    let error = "cannot have empty dependency version".to_string();
    assert_eq!(returned(command), (None, Err(error)));
}

#[test]
fn dependencies_and_prelude_are_sorted_out() {
    let mut m = matches();
    m.expr = true;
    m.dep = Some(vec!["b".to_string(), "a=1".to_string()]);
    m.unstable_features = Some(vec!["y".to_string(), "x".to_string()]);
    match begin(m).1 {
        Command::Decide { deps, prelude } => {
            assert_eq!(deps[0], ("a".to_string(), "1".to_string()));
            assert_eq!(deps[1], ("b".to_string(), "*".to_string()));
            assert_eq!(prelude, vec!["#![feature(x)]", "#![feature(y)]"]);
        }
        other => panic!("{:?}", other),
    }
}

#[test]
fn a_script_without_a_directory_is_not_run() {
    let (session, _) = begin(matches());
    let root = Event::ScriptRead {
        path: "/".to_string(),
        body: String::new(),
        modified: 0,
        current_dir: "/cwd".to_string(),
    };
    let (session, _) = session.step(root);
    let action = action(&session);
    let (session, _) = session.step(Event::Decided { action: Ok(action) });
    let (session, command) = session.step(generated());
    assert!(matches!(command, Command::CleanCache { .. }));
    let (_, command) = session.step(Event::Cleaned { result: Ok(()) });
    let error = "couldn't get parent directory for file input base path".to_string();
    assert_eq!(returned(command), (None, Err(error)));
}

#[test]
fn results_become_exit_codes() {
    assert_eq!(conclude(&Ok(0)), (None, 0));
    assert_eq!(conclude(&Ok(7)), (None, 7));
    assert_eq!(conclude(&Err(MainError::human("no"))), (Some("error: no".to_string()), 1));
    assert_eq!(
        conclude(&Err(MainError::internal("no"))),
        (Some("internal error: no".to_string()), 1)
    );
}
