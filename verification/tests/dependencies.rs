use cargo_eval::deps::{sort_deps, sort_prelude, split_dep};
use cargo_eval::input::Input;

fn list(items: &[&str]) -> Vec<String> {
    items.iter().map(|s| s.to_string()).collect()
}

fn pairs(items: &[(&str, &str)]) -> Vec<(String, String)> {
    items.iter().map(|(n, v)| (n.to_string(), v.to_string())).collect()
}

#[test]
fn dependencies_split_at_the_first_equals_sign() {
    assert_eq!(split_dep("a"), ("a".to_string(), "*".to_string()));
    assert_eq!(split_dep("a=1.0"), ("a".to_string(), "1.0".to_string()));
    assert_eq!(split_dep("a==1.0"), ("a".to_string(), "=1.0".to_string()));
    assert_eq!(split_dep("=1"), ("".to_string(), "1".to_string()));
    assert_eq!(split_dep("a="), ("a".to_string(), "".to_string()));
    assert_eq!(split_dep(""), ("".to_string(), "*".to_string()));
}

#[test]
fn dependencies_are_sorted_and_expanded() {
    let sorted = sort_deps(&list(&["rand", "b=2", "a=1", "Z=3"])).unwrap();
    assert_eq!(sorted, pairs(&[("Z", "3"), ("a", "1"), ("b", "2"), ("rand", "*")]));
    assert_eq!(sort_deps(&list(&[])).unwrap(), vec![]);
}

#[test]
fn repeated_dependencies_count_once() {
    let sorted = sort_deps(&list(&["a=1", "b", "a=1", "b=*"])).unwrap();
    assert_eq!(sorted, pairs(&[("a", "1"), ("b", "*")]));
}

#[test]
fn dependencies_need_a_name() {
    for dep in ["", "=1", "="] {
        let err = sort_deps(&list(&["a", dep])).unwrap_err();
        assert!(err.is_human());
        assert_eq!(err.message, "cannot have empty dependency package name");
    }
}

#[test]
fn dependencies_need_a_version() {
    let err = sort_deps(&list(&["a="])).unwrap_err();
    assert!(err.is_human());
    assert_eq!(err.message, "cannot have empty dependency version");
}

#[test]
fn dependencies_have_one_version() {
    let err = sort_deps(&list(&["z", "a=1", "b", "a=2", "="])).unwrap_err();
    assert!(err.is_human());
    assert_eq!(err.message, "conflicting versions for dependency 'a': '1', '2'");
    assert!(sort_deps(&list(&["a", "a=*"])).is_ok());
    assert!(sort_deps(&list(&["a", "a=1"])).is_err());
}

#[test]
fn the_order_of_dependencies_makes_no_difference() {
    let one = sort_deps(&list(&["c=3", "a", "b=2"])).unwrap();
    let two = sort_deps(&list(&["b=2", "c=3", "a=*", "b=2"])).unwrap();
    assert_eq!(one, two);
    let input = Input::Expr("1", None);
    assert_eq!(input.compute_id(&one).unwrap(), input.compute_id(&two).unwrap());
}

#[test]
fn prelude_items_are_sorted() {
    let items = sort_prelude(&list(&["test", "box_syntax", "test"]));
    assert_eq!(
        items,
        list(&["#![feature(box_syntax)]", "#![feature(test)]", "#![feature(test)]"])
    );
    assert_eq!(sort_prelude(&list(&["box_syntax", "test", "test"])), items);
    assert!(sort_prelude(&list(&[])).is_empty());
}
