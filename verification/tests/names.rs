use cargo_eval::build_kind::BuildKind;
use cargo_eval::digest::{hash_str, try_hash_str};
use cargo_eval::input::Input;
use cargo_eval::paths::{
    binary_cache_path, find_script, get_exe_path, get_meta_hash_path, get_pkg_metadata_path,
    script_cache_path, script_name,
};
use cargo_eval::text::{
    chars_of, decimal_text, same_text, signed_decimal_text, text_before,
};
use shaman::digest::Digest;
use shaman::sha1::Sha1;

fn pair(name: &str, version: &str) -> (String, String) {
    (name.to_string(), version.to_string())
}

fn sha1(text: &str) -> String {
    let mut hasher = Sha1::new();
    hasher.input_str(text);
    hasher.result_str()
}

#[test]
fn texts_compare_by_what_they_say() {
    assert!(same_text("abc", "abc"));
    assert!(!same_text("abc", "abd"));
    assert!(!same_text("abc", "ab"));
    assert!(same_text("", ""));
    assert!(same_text("h\u{e9}llo", "h\u{e9}llo"));
    assert_eq!(chars_of("a\u{e9}\u{1f600}"), vec!['a', '\u{e9}', '\u{1f600}']);
}

#[test]
fn texts_are_ordered_as_strings_are() {
    let words = ["", "a", "ab", "b", "B", "a-b", "\u{e9}", "\u{ffff}", "\u{10000}", "zz"];
    for a in words {
        for b in words {
            assert_eq!(text_before(a, b), a < b, "{:?} {:?}", a, b);
        }
    }
}

#[test]
fn numbers_are_written_in_decimal() {
    assert_eq!(decimal_text(0), "0");
    assert_eq!(decimal_text(10), "10");
    assert_eq!(decimal_text(1234567890), "1234567890");
    assert_eq!(decimal_text(u128::MAX), u128::MAX.to_string());
    assert_eq!(signed_decimal_text(-1), "-1");
    assert_eq!(signed_decimal_text(i32::MIN), i32::MIN.to_string());
    assert_eq!(signed_decimal_text(101), "101");
}

#[test]
fn digests_are_sha1() {
    assert_eq!(hash_str("hello world"), "2aae6c35c94fcfb415dbe95f408b9ce91ee846ed");
    assert_eq!(hash_str(""), "da39a3ee5e6b4b0d3255bfef95601890afd80709");
    assert_eq!(try_hash_str("abc").unwrap(), "a9993e364706816aba3e25717850c26c9cd0d89d");
}

#[test]
fn build_kinds_follow_the_flags() {
    assert_eq!(BuildKind::from_flags(false, false), BuildKind::Normal);
    assert_eq!(BuildKind::from_flags(true, false), BuildKind::Test);
    assert_eq!(BuildKind::from_flags(false, true), BuildKind::Bench);
    assert!(BuildKind::Normal.can_exec_directly());
    assert!(!BuildKind::Test.can_exec_directly());
    assert!(!BuildKind::Bench.can_exec_directly());
    assert_eq!(BuildKind::Test.exec_command(), "test");
    assert_eq!(BuildKind::Bench.exec_command(), "bench");
}

#[test]
fn paths_are_joined() {
    assert_eq!(script_cache_path("/c"), "/c/scripts");
    assert_eq!(binary_cache_path("/c/"), "/c/bin");
    assert_eq!(get_pkg_metadata_path("/p"), "/p/metadata.json");
    assert_eq!(get_meta_hash_path(true, "/p"), "/p/target.meta-hash");
    assert_eq!(get_exe_path(BuildKind::Normal, "/p").unwrap(), "/p/target.exe_path");
}

#[test]
fn only_regular_builds_have_an_executable_path() {
    for kind in [BuildKind::Test, BuildKind::Bench] {
        let err = get_exe_path(kind, "/p").unwrap_err();
        assert!(!err.is_human());
        assert_eq!(err.message, "tried to get executable path for test/bench build");
    }
}

#[test]
fn scripts_are_looked_for_with_extensions() {
    assert_eq!(find_script("hello", 0), Some("hello".to_string()));
    assert_eq!(find_script("hello", 1), Some("hello.crs".to_string()));
    assert_eq!(find_script("hello", 2), Some("hello.rs".to_string()));
    assert_eq!(find_script("hello", 3), None);
    assert_eq!(find_script("dir.d/hello", 2), Some("dir.d/hello.rs".to_string()));
}

#[test]
fn scripts_with_an_extension_are_looked_for_once() {
    assert_eq!(find_script("hello.rs", 0), Some("hello.rs".to_string()));
    assert_eq!(find_script("hello.rs", 1), None);
    assert_eq!(find_script("hello.txt", 2), None);
}

#[test]
fn scripts_are_named_after_their_files() {
    assert_eq!(script_name("dir/hello.rs"), "hello");
    assert_eq!(script_name("hello"), "hello");
    assert_eq!(script_name(".."), "unknown");
    assert_eq!(script_name("a.b.rs"), "a.b");
}

#[test]
fn inputs_have_names_and_paths() {
    let file = Input::File("hello", "/s/hello.rs", "fn main() {}", 7);
    let expr = Input::Expr("1+1", None);
    let looped = Input::Loop("|l| ()", true);
    assert_eq!(file.path(), Some("/s/hello.rs"));
    assert_eq!(expr.path(), None);
    assert_eq!(looped.path(), None);
    assert_eq!(file.safe_name(), "hello");
    assert_eq!(expr.safe_name(), "expr");
    assert_eq!(looped.safe_name(), "loop");
    assert_eq!(file.base_path("/cwd"), "/s");
    assert_eq!(expr.base_path("/cwd"), "/cwd");
    assert_eq!(looped.try_base_path("/cwd"), Some("/cwd".to_string()));
    assert_eq!(Input::File("x", "/", "", 0).try_base_path("/cwd"), None);
    assert_eq!(Input::File("x", "x.rs", "", 0).try_base_path("/cwd"), Some("".to_string()));
}

fn package_name(name: &str) -> String {
    Input::File(name, "/s", "", 0).package_name()
}

#[test]
fn package_names_hold_no_odd_characters() {
    assert_eq!(package_name("hello"), "hello");
    assert_eq!(package_name("7up"), "_7up");
    assert_eq!(package_name("up7"), "up7");
    assert_eq!(package_name("a b.c"), "a_b_c");
    assert_eq!(package_name("kebab-case_Name"), "kebab_case_Name");
    assert_eq!(package_name("\u{e9}t\u{e9}"), "_t_");
    assert_eq!(package_name(""), "_");
    assert_eq!(package_name("\u{663}x"), "_x");
    assert_eq!(Input::Expr("", None).package_name(), "expr");
    assert_eq!(Input::Loop("", false).package_name(), "loop");
}

#[test]
fn package_names_have_the_shape_of_identifiers() {
    for name in ["", "-", "--", "my-script", "7-up", "\u{1f980}", "a.b-c d"] {
        let found = package_name(name);
        assert!(found.starts_with(|c: char| c.is_ascii_alphabetic() || c == '_'));
        assert!(found.chars().all(|c| c.is_ascii_alphanumeric() || c == '_'));
    }
}

#[test]
fn package_names_are_their_own_package_names() {
    for name in ["hello", "7up", "a b.c", "-x", "99", ""] {
        let once = package_name(name);
        assert_eq!(package_name(&once), once);
        assert!(!once.starts_with(|c: char| c.is_ascii_digit()));
    }
}

#[test]
fn what_is_kept_apart_is_apart() {
    for dir in ["/c", "/c/", "", "c", "../c d"] {
        let scripts = script_cache_path(dir);
        let binaries = binary_cache_path(dir);
        assert!(!scripts.starts_with(&binaries) && !binaries.starts_with(&scripts));
        let files = [
            get_pkg_metadata_path(dir),
            get_meta_hash_path(true, dir),
            get_exe_path(BuildKind::Normal, dir).unwrap(),
        ];
        for (i, a) in files.iter().enumerate() {
            for (j, b) in files.iter().enumerate() {
                assert_eq!(a.starts_with(b), i == j);
            }
        }
    }
}

#[test]
fn file_ids_hold_the_name_and_the_path() {
    let id = Input::File("hello", "/s/hello.rs", "x", 1).compute_id(&vec![]).unwrap();
    assert_eq!(id, format!("file-hello-{}", &sha1("/s/hello.rs")[..24]));
    let other = Input::File("hello", "/s/hello.rs", "y", 2);
    assert_eq!(other.compute_id(&vec![pair("a", "1")]).unwrap(), id);
    let moved = Input::File("hello", "/t/hello.rs", "x", 1);
    assert_ne!(moved.compute_id(&vec![]).unwrap(), id);
}

#[test]
fn expression_ids_hold_dependencies_and_template() {
    let deps = vec![pair("a", "1"), pair("b", "*")];
    let id = Input::Expr("1+1", Some("t")).compute_id(&deps).unwrap();
    assert_eq!(id, format!("expr-{}", &sha1("dep=a=1;dep=b=*;template:t;1+1")[..24]));
    let plain = Input::Expr("1+1", None).compute_id(&vec![]).unwrap();
    assert_eq!(plain, format!("expr-{}", &sha1("template:;1+1")[..24]));
    assert_eq!(plain.len(), 29);
}

#[test]
fn loop_ids_hold_the_count_flag() {
    let with = Input::Loop("|l| ()", true).compute_id(&vec![pair("a", "1")]).unwrap();
    let without = Input::Loop("|l| ()", false).compute_id(&vec![pair("a", "1")]).unwrap();
    assert_eq!(with, format!("loop-{}", &sha1("dep=a=1;count:true;|l| ()")[..24]));
    assert_eq!(without, format!("loop-{}", &sha1("dep=a=1;count:false;|l| ()")[..24]));
    assert_ne!(with, without);
}

#[test]
fn ids_tell_kinds_apart() {
    let file = Input::File("x", "1", "", 0).compute_id(&vec![]).unwrap();
    let expr = Input::Expr("1", None).compute_id(&vec![]).unwrap();
    let looped = Input::Loop("1", false).compute_id(&vec![]).unwrap();
    assert!(file.starts_with("file-x-"));
    assert!(expr.starts_with("expr-"));
    assert!(looped.starts_with("loop-"));
}

#[test]
fn digests_do_not_depend_on_how_the_text_is_fed() {
    let mut hasher = Sha1::new();
    for part in ["dep=", "a", "=", "1", ";", "template:", "", ";", "1+1"] {
        hasher.input_str(part);
    }
    let digest = hasher.result_str();
    let id = Input::Expr("1+1", None).compute_id(&vec![pair("a", "1")]).unwrap();
    assert_eq!(id, format!("expr-{}", &digest[..24]));
}
