use cargo_eval::action::{
    decide_action_for, decide_on_exe, decide_on_meta_hash, decide_on_metadata, settle_meta_hash,
    Decision, InputAction,
};
use cargo_eval::args::{parse_args, yes_or_no, Args, Matches, SubCommand};
use cargo_eval::build_kind::BuildKind;
use cargo_eval::cache::{clean_cache, CacheEntry};
use cargo_eval::cargo::{
    build_outcome, cargo, cargo_target_by_message, cargo_target_command, is_target_report,
    no_target_error, BuildMessage,
};
use cargo_eval::digest::hash_str;
use cargo_eval::error::MainError;
use cargo_eval::generate::{
    follow_step, gen_pkg_and_compile, overwrite_file, FileOverwrite, Next, Step,
};
use cargo_eval::input::Input;
use cargo_eval::metadata::PackageMetadata;

fn list(items: &[&str]) -> Vec<String> {
    items.iter().map(|s| s.to_string()).collect()
}

fn metadata() -> PackageMetadata {
    PackageMetadata {
        path: Some("/s/\"h\u{e9}llo\".rs".to_string()),
        modified: Some(1_500_000_000_123),
        template: None,
        debug: false,
        deps: vec![
            ("a".to_string(), "1".to_string()),
            ("b\n".to_string(), "*".to_string()),
        ],
        prelude: list(&["#![feature(test)]"]),
        features: Some("x y".to_string()),
        manifest_hash: "m".to_string(),
        script_hash: "s".to_string(),
    }
}

fn matches() -> Matches {
    Matches {
        script: Some("hello".to_string()),
        args: None,
        features: None,
        expr: false,
        loop_: false,
        count: false,
        pkg_path: None,
        gen_pkg_only: false,
        build_only: false,
        clear_cache: false,
        debug: false,
        dep: None,
        force: false,
        unstable_features: None,
        use_bincache: None,
        test: false,
        bench: false,
        template: None,
    }
}

fn parsed(m: Matches) -> Args {
    match parse_args::<()>(None, m) {
        SubCommand::Script(args) => args,
        SubCommand::Templates(()) => panic!("templates"),
    }
}

const INPUT: Input<'static> = Input::File("hello", "/s/hello.rs", "fn main() {}", 42);

fn decide(args: &Args) -> Decision {
    decide_action_for(
        &INPUT,
        vec![("a".to_string(), "1".to_string())],
        list(&["#![feature(test)]"]),
        args,
        "[package]".to_string(),
        "fn main() {}".to_string(),
        "/c",
    )
    .unwrap()
}

fn pending(args: &Args) -> InputAction {
    match decide(args) {
        Decision::NeedMetadata(action) => action,
        other => panic!("{:?}", other),
    }
}

fn acted(decision: Decision) -> InputAction {
    match decision {
        Decision::Act(action) => action,
        other => panic!("{:?}", other),
    }
}

#[test]
fn metadata_is_hashed_as_it_is_written() {
    let full = metadata();
    assert_eq!(full.written(), format!("{:?}", full));
    assert_eq!(full.sha1_hash(), hash_str(&format!("{:?}", full)));
    assert_eq!(full.try_sha1_hash().unwrap(), full.sha1_hash());
    let bare = PackageMetadata {
        path: None,
        modified: None,
        template: Some("t".to_string()),
        debug: true,
        deps: vec![],
        prelude: vec![],
        features: None,
        manifest_hash: String::new(),
        script_hash: String::new(),
    };
    assert_eq!(bare.written(), format!("{:?}", bare));
    assert_eq!(
        bare.written(),
        "PackageMetadata { path: None, modified: None, template: Some(\"t\"), debug: true, \
         deps: [], prelude: [], features: None, manifest_hash: \"\", script_hash: \"\" }"
    );
    assert_ne!(bare.sha1_hash(), full.sha1_hash());
}

#[test]
fn different_metadata_is_written_differently() {
    let change = |f: &dyn Fn(&mut PackageMetadata)| {
        let mut m = metadata();
        f(&mut m);
        m
    };
    let all = vec![
        metadata(),
        change(&|m| m.path = None),
        change(&|m| m.path = Some("\"), modified: None".to_string())),
        change(&|m| m.modified = Some(150_000_000_012)),
        change(&|m| m.modified = None),
        change(&|m| m.template = Some("None".to_string())),
        change(&|m| m.debug = true),
        change(&|m| m.deps = vec![]),
        change(&|m| m.deps = vec![("a\", \"1\"), (\"b\n".to_string(), "*".to_string())]),
        change(&|m| m.prelude = vec![]),
        change(&|m| m.prelude = list(&["#![feature(test)]", ""])),
        change(&|m| m.prelude = list(&["#![feature(test)]\", \""])),
        change(&|m| m.features = Some("x  y".to_string())),
        change(&|m| m.manifest_hash = "m\\".to_string()),
        change(&|m| m.script_hash = "\"s\"".to_string()),
    ];
    for (i, a) in all.iter().enumerate() {
        for (j, b) in all.iter().enumerate() {
            assert_eq!(a.written() == b.written(), i == j);
            assert_eq!(a.sha1_hash() == b.sha1_hash(), i == j);
        }
        assert_eq!(a.sha1_hash().len(), 40);
    }
}

#[test]
fn metadata_is_equal_field_by_field() {
    let one = metadata();
    assert!(one == one.clone());
    for change in 0..9 {
        let mut two = metadata();
        match change {
            0 => two.path = None,
            1 => two.modified = Some(1),
            2 => two.template = Some(String::new()),
            3 => two.debug = true,
            4 => two.deps[1].1 = "2".to_string(),
            5 => two.prelude.push(String::new()),
            6 => two.features = Some("x".to_string()),
            7 => two.manifest_hash = String::new(),
            _ => two.script_hash = "S".to_string(),
        }
        assert!(one != two, "{}", change);
    }
}

#[test]
fn arguments_keep_what_was_found() {
    let mut m = matches();
    m.args = Some(list(&["x", "y"]));
    m.dep = Some(list(&["a=1"]));
    m.bench = true;
    m.use_bincache = Some("no".to_string());
    let args = parsed(m);
    assert_eq!(args.script, Some("hello".to_string()));
    assert_eq!(args.args, list(&["x", "y"]));
    assert_eq!(args.dep, list(&["a=1"]));
    assert!(args.unstable_features.is_empty());
    assert_eq!(args.build_kind, BuildKind::Bench);
    assert_eq!(args.use_bincache, Some(false));
}

#[test]
fn templates_come_before_scripts() {
    match parse_args(Some(5), matches()) {
        SubCommand::Templates(found) => assert_eq!(found, 5),
        SubCommand::Script(_) => panic!("script"),
    }
}

#[test]
fn yes_and_no_mean_what_they_say() {
    assert_eq!(yes_or_no(Some("yes")), Some(true));
    assert_eq!(yes_or_no(Some("no")), Some(false));
    assert_eq!(yes_or_no(None), None);
}

#[test]
fn packages_live_in_the_cache() {
    let action = pending(&parsed(matches()));
    let id = INPUT.compute_id(&vec![]).unwrap();
    assert_eq!(action.pkg_path, format!("/c/scripts/{}", id));
    assert_eq!(action.manifest_path(), format!("/c/scripts/{}/Cargo.toml", id));
    assert!(action.using_cache && action.use_bincache);
    assert!(!action.compile && !action.force_compile && action.execute && action.emit_metadata);
    assert_eq!(action.metadata.path, Some("/s/hello.rs".to_string()));
    assert_eq!(action.metadata.modified, Some(42));
    assert_eq!(action.metadata.manifest_hash, hash_str("[package]"));
    assert_eq!(action.metadata.script_hash, hash_str("fn main() {}"));
}

#[test]
fn packages_live_where_the_user_says() {
    let mut m = matches();
    m.pkg_path = Some("/mine".to_string());
    let action = pending(&parsed(m));
    assert_eq!(action.pkg_path, "/mine");
    assert!(!action.using_cache && !action.use_bincache);
    let mut m = matches();
    m.pkg_path = Some("/mine".to_string());
    m.use_bincache = Some("yes".to_string());
    assert!(pending(&parsed(m)).use_bincache);
}

#[test]
fn expressions_record_their_template() {
    let args = parsed(matches());
    let input = Input::Expr("1", Some("t"));
    let decision =
        decide_action_for(&input, vec![], vec![], &args, String::new(), String::new(), "/c");
    match decision.unwrap() {
        Decision::NeedMetadata(action) => {
            assert_eq!(action.metadata.template, Some("t".to_string()));
            assert_eq!(action.metadata.path, None);
            assert_eq!(action.metadata.modified, None);
        }
        other => panic!("{:?}", other),
    }
}

#[test]
fn generating_only_stops_there() {
    let mut m = matches();
    m.gen_pkg_only = true;
    m.force = true;
    let action = acted(decide(&parsed(m)));
    assert!(!action.compile && !action.execute && action.force_compile);
    assert!(action.old_metadata.is_none());
}

#[test]
fn tests_and_benchmarks_override_flags() {
    let mut m = matches();
    m.test = true;
    m.force = true;
    m.build_only = true;
    let action = acted(decide(&parsed(m)));
    assert!(!action.compile && !action.force_compile && action.execute);
    assert!(action.metadata.debug);
    let mut m = matches();
    m.bench = true;
    m.debug = true;
    let action = acted(decide(&parsed(m)));
    assert!(!action.metadata.debug);
    assert!(action.execute);
}

#[test]
fn missing_metadata_means_compiling() {
    let action = acted(decide_on_metadata(pending(&parsed(matches())), None));
    assert!(action.compile && !action.force_compile && action.execute);
    assert!(action.old_metadata.is_none());
}

#[test]
fn other_metadata_means_compiling() {
    let action = pending(&parsed(matches()));
    let mut old = action.metadata.clone();
    old.modified = Some(41);
    let action = acted(decide_on_metadata(action, Some(old.clone())));
    assert!(action.compile && !action.force_compile);
    assert!(action.old_metadata == Some(old));
}

fn same_metadata(args: &Args) -> InputAction {
    let action = pending(args);
    let old = action.metadata.clone();
    match decide_on_metadata(action, Some(old)) {
        Decision::NeedExe(action) => action,
        other => panic!("{:?}", other),
    }
}

#[test]
fn a_missing_executable_means_compiling() {
    let action = acted(decide_on_exe(same_metadata(&parsed(matches())), false));
    assert!(action.compile && !action.force_compile);
    assert!(action.old_metadata.is_some());
}

#[test]
fn without_the_binary_cache_the_executable_is_enough() {
    let mut m = matches();
    m.use_bincache = Some("no".to_string());
    let action = acted(decide_on_exe(same_metadata(&parsed(m)), true));
    assert!(!action.compile && !action.force_compile && action.execute);
}

fn need_hash(args: &Args) -> InputAction {
    match decide_on_exe(same_metadata(args), true) {
        Decision::NeedMetaHash(action) => action,
        other => panic!("{:?}", other),
    }
}

#[test]
fn the_binary_cache_has_to_hold_the_same_metadata() {
    let args = parsed(matches());
    let action = decide_on_meta_hash(need_hash(&args), None).unwrap();
    assert!(action.compile && action.force_compile);
    let action = decide_on_meta_hash(need_hash(&args), Some("stale".to_string())).unwrap();
    assert!(action.compile && action.force_compile);
    let hash = need_hash(&args).metadata.sha1_hash();
    let action = decide_on_meta_hash(need_hash(&args), Some(hash.clone())).unwrap();
    assert!(!action.compile && !action.force_compile);
    assert!(!settle_meta_hash(need_hash(&args), &hash, &hash).compile);
    assert!(settle_meta_hash(need_hash(&args), &hash, "x").force_compile);
}

#[test]
fn a_forced_compile_is_not_cached() {
    let mut m = matches();
    m.force = true;
    let args = parsed(m);
    let hash = need_hash(&args).metadata.sha1_hash();
    let action = decide_on_meta_hash(need_hash(&args), Some(hash)).unwrap();
    assert!(action.compile && action.force_compile);
}

fn text(step: &Step) -> String {
    match step {
        Step::CreateDir { path } => format!("mkdir {}", path),
        Step::WriteFile { path, content } => format!("write {} {}", path, content),
        Step::Build { command } => {
            format!("build {} {:?}", command.args.join(" "), command.target_dir)
        }
        Step::FindTarget { command, package_name, cache_path } => {
            format!("find {} {} {}", command.args.join(" "), package_name, cache_path)
        }
        Step::SaveMetadata { path, .. } => format!("save {}", path),
    }
}

#[test]
fn a_package_is_generated_and_compiled() {
    let mut m = matches();
    m.features = Some("x".to_string());
    let action = acted(decide_on_metadata(pending(&parsed(m)), None));
    let steps = gen_pkg_and_compile(&INPUT, &action, true, "/c").unwrap();
    let p = action.pkg_path.clone();
    let build = format!(
        "build --manifest-path {}/Cargo.toml --color always --release --features x",
        p
    );
    assert_eq!(
        steps.iter().map(text).collect::<Vec<_>>(),
        vec![
            format!("mkdir {}", p),
            format!("write {}/Cargo.toml [package]", p),
            format!("write {}/hello.rs fn main() {{}}", p),
            format!("write {}/target.exe_path ", p),
            format!("build {} Some(\"/c/bin\")", build),
            format!("find {} --message-format=json hello {}/target.exe_path", build, p),
            format!("write {}/target.meta-hash {}", p, action.metadata.sha1_hash()),
            format!("save {}/metadata.json", p),
        ]
    );
}

#[test]
fn a_second_run_uses_the_cache() {
    let args = parsed(matches());
    let first = acted(decide_on_metadata(pending(&args), None));
    let steps = gen_pkg_and_compile(&INPUT, &first, false, "/c").unwrap();
    let mut recorded = None;
    let mut tied = None;
    for step in steps {
        match step {
            Step::SaveMetadata { metadata, .. } => recorded = Some(metadata),
            Step::WriteFile { path, content } if path.ends_with("target.meta-hash") => {
                tied = Some(content)
            }
            _ => {}
        }
    }
    assert!(recorded.as_ref() == Some(&first.metadata));
    let second = match decide_on_metadata(pending(&args), recorded) {
        Decision::NeedExe(action) => match decide_on_exe(action, true) {
            Decision::NeedMetaHash(action) => decide_on_meta_hash(action, tied).unwrap(),
            other => panic!("{:?}", other),
        },
        other => panic!("{:?}", other),
    };
    assert!(!second.compile && second.execute);
    let steps = gen_pkg_and_compile(&INPUT, &second, false, "/c").unwrap();
    assert_eq!(
        steps.iter().map(text).collect::<Vec<_>>(),
        vec![
            format!("mkdir {}", second.pkg_path),
            format!("save {}/metadata.json", second.pkg_path),
        ]
    );
}

#[test]
fn a_forced_compile_writes_the_script() {
    let mut m = matches();
    m.force = true;
    let action = same_metadata(&parsed(m));
    let steps = gen_pkg_and_compile(&INPUT, &action, false, "/c").unwrap();
    let texts: Vec<String> = steps.iter().map(text).collect();
    assert_eq!(texts[1], format!("write {}/hello.rs fn main() {{}}", action.pkg_path));
    assert_eq!(texts[2], format!("write {}/target.exe_path ", action.pkg_path));
    assert!(texts[3].starts_with("build "));
    assert!(texts.last().unwrap().starts_with("save "));
}

#[test]
fn forcing_does_nothing_where_nothing_is_compiled() {
    let mut m = matches();
    m.gen_pkg_only = true;
    m.force = true;
    let mut action = acted(decide(&parsed(m)));
    let steps = gen_pkg_and_compile(&INPUT, &action, false, "/c").unwrap();
    action.force_compile = false;
    let plain = gen_pkg_and_compile(&INPUT, &action, false, "/c").unwrap();
    assert_eq!(
        steps.iter().map(text).collect::<Vec<_>>(),
        plain.iter().map(text).collect::<Vec<_>>()
    );
    assert_eq!(steps.len(), 4);

    action.old_metadata = Some(action.metadata.clone());
    action.force_compile = true;
    let steps = gen_pkg_and_compile(&INPUT, &action, false, "/c").unwrap();
    assert_eq!(
        steps.iter().map(text).collect::<Vec<_>>(),
        vec![
            format!("mkdir {}", action.pkg_path),
            format!("save {}/metadata.json", action.pkg_path),
        ]
    );
    action.compile = true;
    let steps = gen_pkg_and_compile(&INPUT, &action, false, "/c").unwrap();
    assert_eq!(text(&steps[1]), format!("write {}/hello.rs fn main() {{}}", action.pkg_path));
}

#[test]
fn decisions_keep_the_package() {
    let args = parsed(matches());
    let before = pending(&args);
    let after = decide_on_meta_hash(need_hash(&args), None).unwrap();
    assert_eq!(after.pkg_path, before.pkg_path);
    assert_eq!(after.manifest, before.manifest);
    assert_eq!(after.script, before.script);
    assert!(after.metadata == before.metadata);
    assert_eq!(after.using_cache, before.using_cache);
}

#[test]
fn files_are_written_only_if_they_changed() {
    assert!(matches!(overwrite_file("x", Some(&hash_str("x"))), Ok(FileOverwrite::Same)));
    match overwrite_file("x", Some(&hash_str("y"))) {
        Ok(FileOverwrite::Changed { new_hash }) => assert_eq!(new_hash, hash_str("x")),
        other => panic!("{:?}", other),
    }
    assert!(matches!(overwrite_file("x", None), Ok(FileOverwrite::Changed { .. })));
}

#[test]
fn failures_clean_up_only_in_the_cache() {
    let cached = pending(&parsed(matches()));
    let mut m = matches();
    m.pkg_path = Some("/mine".to_string());
    let given = pending(&parsed(m));
    let fail = || Err(MainError::internal("no"));
    let steps = gen_pkg_and_compile(&INPUT, &cached, false, "/c").unwrap();
    assert_eq!(steps.len(), 4);
    match follow_step(&cached, &steps, 0, None, Ok(())) {
        Next::Continue { index: 1, pending: None } => {}
        other => panic!("{:?}", other),
    }
    assert!(matches!(follow_step(&cached, &steps, 3, None, Ok(())), Next::Done));
    match follow_step(&cached, &steps, 1, None, fail()) {
        Next::Abort { remove, error } => {
            assert_eq!(remove, Some(cached.pkg_path.clone()));
            assert_eq!(error.message, "no");
        }
        other => panic!("{:?}", other),
    }
    let first = follow_step(&cached, &steps, 0, None, fail());
    assert!(matches!(first, Next::Abort { remove: None, .. }));
    let last = follow_step(&given, &steps, 3, None, fail());
    assert!(matches!(last, Next::Abort { remove: None, .. }));
}

#[test]
fn a_failed_build_keeps_the_package() {
    let action = acted(decide_on_metadata(pending(&parsed(matches())), None));
    let steps = gen_pkg_and_compile(&INPUT, &action, false, "/c").unwrap();
    let texts: Vec<String> = steps.iter().map(text).collect();
    assert!(texts[4].starts_with("build "));
    let (index, pending) =
        match follow_step(&action, &steps, 4, None, build_outcome(Some(101))) {
            Next::Continue { index, pending } => (index, pending),
            other => panic!("{:?}", other),
        };
    assert_eq!(texts[index], format!("save {}/metadata.json", action.pkg_path));
    match follow_step(&action, &steps, index, pending, Ok(())) {
        Next::Abort { remove: None, error } => {
            assert_eq!(error.message, "cargo failed with status 101")
        }
        other => panic!("{:?}", other),
    }
    // What was noted of an earlier build is blanked, so that the script is compiled again.
    assert_eq!(texts[3], format!("write {}/target.exe_path ", action.pkg_path));
    let again = acted(decide_on_exe(same_metadata(&parsed(matches())), false));
    assert!(again.compile);
}

#[test]
fn nothing_is_removed_outside_the_cache() {
    let mut m = matches();
    m.pkg_path = Some("/mine".to_string());
    m.use_bincache = Some("yes".to_string());
    let action = acted(decide_on_metadata(pending(&parsed(m)), None));
    assert!(action.compile && !action.using_cache);
    let steps = gen_pkg_and_compile(&INPUT, &action, false, "/c").unwrap();
    let written: Vec<&str> = steps
        .iter()
        .filter_map(|step| match step {
            Step::CreateDir { path }
            | Step::WriteFile { path, .. }
            | Step::FindTarget { cache_path: path, .. }
            | Step::SaveMetadata { path, .. } => Some(path.as_str()),
            Step::Build { .. } => None,
        })
        .collect();
    assert_eq!(
        written,
        vec![
            "/mine",
            "/mine/Cargo.toml",
            "/mine/hello.rs",
            "/mine/target.exe_path",
            "/mine/target.exe_path",
            "/mine/target.meta-hash",
            "/mine/metadata.json",
        ]
    );
    for index in 0..steps.len() {
        for failed in [None, Some(MainError::internal("cargo failed"))] {
            let next = follow_step(&action, &steps, index, failed, build_outcome(Some(1)));
            assert!(!matches!(next, Next::Abort { remove: Some(_), .. }));
        }
    }
}

#[test]
fn clearing_the_cache_acts_as_forcing() {
    let mut m = matches();
    m.clear_cache = true;
    let before = pending(&parsed(m));
    // The package is thrown out, also where its metadata is as young as can be.
    for mtime in [None, Some(999), Some(1000)] {
        let entries = vec![entry(&before.pkg_path, false, mtime)];
        assert_eq!(clean_cache(0, 1000, false, &entries, "/c"), vec![before.pkg_path.clone()]);
    }
    // So its metadata cannot be loaded, and everything is as if a compile were forced.
    let cleared = acted(decide_on_metadata(before, None));
    let mut m = matches();
    m.force = true;
    let forced = acted(decide_on_metadata(pending(&parsed(m)), None));
    assert!(cleared.compile && forced.compile);
    assert_eq!(cleared.execute, forced.execute);
    let steps = |action: &InputAction| -> Vec<String> {
        gen_pkg_and_compile(&INPUT, action, false, "/c").unwrap().iter().map(text).collect()
    };
    assert_eq!(steps(&cleared), steps(&forced));
}

#[test]
fn a_failed_build_that_cannot_be_recorded_is_cleaned_up() {
    let action = acted(decide_on_metadata(pending(&parsed(matches())), None));
    let steps = gen_pkg_and_compile(&INPUT, &action, false, "/c").unwrap();
    let failed = Some(MainError::internal("cargo failed"));
    let last = steps.len() - 1;
    match follow_step(&action, &steps, last, failed, Err(MainError::internal("disk full"))) {
        Next::Abort { remove, error } => {
            assert_eq!(remove, Some(action.pkg_path.clone()));
            assert_eq!(error.message, "disk full");
        }
        other => panic!("{:?}", other),
    }
}

#[test]
fn a_failed_build_without_metadata_ends_at_once() {
    let mut action = acted(decide_on_metadata(pending(&parsed(matches())), None));
    action.emit_metadata = false;
    let steps = gen_pkg_and_compile(&INPUT, &action, false, "/c").unwrap();
    assert!(matches!(steps[4], Step::Build { .. }));
    match follow_step(&action, &steps, 4, None, build_outcome(None)) {
        Next::Abort { remove: None, error } => assert_eq!(error.message, "cargo failed"),
        other => panic!("{:?}", other),
    }
}

#[test]
fn cargo_commands_follow_the_metadata() {
    let mut meta = metadata();
    meta.features = None;
    let command = cargo("build", "/p/Cargo.toml", false, &meta, false, "/c");
    assert_eq!(command.args, list(&["build", "--manifest-path", "/p/Cargo.toml", "--release"]));
    assert_eq!(command.target_dir, None);
    let command = cargo("bench", "/p/Cargo.toml", true, &meta, false, "/c");
    assert_eq!(command.args, list(&["bench", "--manifest-path", "/p/Cargo.toml"]));
    assert_eq!(command.target_dir, Some("/c/bin".to_string()));
    meta.debug = true;
    let command = cargo_target_command("/p/Cargo.toml", false, &meta, false, "/c");
    assert_eq!(
        command.args,
        list(&["build", "--manifest-path", "/p/Cargo.toml", "--message-format=json"])
    );
}

#[test]
fn builds_succeed_with_status_zero() {
    assert!(build_outcome(Some(0)).is_ok());
    assert_eq!(build_outcome(Some(101)).unwrap_err().message, "cargo failed with status 101");
    assert_eq!(build_outcome(Some(-1)).unwrap_err().message, "cargo failed with status -1");
    assert_eq!(build_outcome(None).unwrap_err().message, "cargo failed");
}

fn message(reason: &str, name: &str, files: &[&str]) -> Option<BuildMessage> {
    Some(BuildMessage {
        reason: reason.to_string(),
        target_name: name.to_string(),
        filenames: list(files),
    })
}

#[test]
fn the_target_is_the_first_file_of_its_artifact() {
    let found = cargo_target_by_message(message("compiler-artifact", "x", &["/a", "/b"]), "x");
    assert_eq!(found, Some("/a".to_string()));
    let other = message("compiler-artifact", "y", &["/a"]);
    assert_eq!(cargo_target_by_message(other, "x"), None);
    assert_eq!(cargo_target_by_message(message("build-finished", "x", &[]), "x"), None);
    assert_eq!(cargo_target_by_message(None, "x"), None);
    let reports = |m: Option<BuildMessage>| is_target_report(&m.unwrap(), "x");
    assert!(reports(message("compiler-artifact", "x", &[])));
    assert!(!reports(message("compiler-artifact", "y", &[])));
    assert!(!reports(message("build-finished", "x", &[])));
}

#[test]
fn builds_without_a_target_are_errors() {
    assert_eq!(
        no_target_error(Some(0)).message,
        "could not determine target filename: cargo exited with status 0"
    );
    assert_eq!(
        no_target_error(None).message,
        "could not determine target filename: cargo exited abnormally"
    );
}

fn entry(path: &str, is_file: bool, meta_mtime: Option<u128>) -> CacheEntry {
    CacheEntry { path: path.to_string(), is_file, meta_mtime }
}

#[test]
fn old_packages_are_thrown_out() {
    let entries = vec![
        entry("old", false, Some(900)),
        entry("file", true, None),
        entry("broken", false, None),
        entry("young", false, Some(901)),
        entry("older", false, Some(1)),
    ];
    assert_eq!(clean_cache(100, 1000, true, &entries, "/c"), list(&["old", "broken", "older"]));
    assert_eq!(clean_cache(1000, 1000, true, &entries, "/c"), list(&["broken"]));
}

#[test]
fn clearing_throws_everything_out() {
    let entries = vec![entry("a", false, Some(1000)), entry("b", false, Some(1001))];
    assert_eq!(clean_cache(0, 1000, true, &entries, "/c"), list(&["/c/bin", "a"]));
    assert_eq!(clean_cache(0, 1000, false, &entries, "/c"), list(&["a"]));
}
