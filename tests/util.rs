use baps3_cli::util::{map_collect, slicify, str_eq, strs_eq_from, unslicify};

#[test]
fn slicify_borrows_each_string() {
    let v = vec!["a".to_string(), "b".to_string(), "c".to_string()];
    assert_eq!(slicify(&v), vec!["a", "b", "c"]);
}

#[test]
fn unslicify_copies_each_slice() {
    let v = ["a", "b", "c"];
    assert_eq!(unslicify(&v), vec!["a".to_string(), "b".to_string(), "c".to_string()]);
}

#[test]
fn map_collect_applies_in_order() {
    let v = [1u32, 2, 3];
    assert_eq!(map_collect(&v, |x: &u32| *x * 10), vec![10, 20, 30]);
}

#[test]
fn map_collect_empty() {
    let v: [u32; 0] = [];
    assert!(map_collect(&v, |x: &u32| *x).is_empty());
}

#[test]
fn str_eq_compares_characters() {
    assert!(str_eq("OHAI", "OHAI"));
    assert!(!str_eq("OHAI", "OHAJ"));
    assert!(!str_eq("OK", "OKAY"));
    assert!(str_eq("", ""));
}

#[test]
fn strs_eq_from_skips_prefix() {
    assert!(strs_eq_from(&["adv", "cmd", "arg"], 1, &["cmd", "arg"]));
    assert!(!strs_eq_from(&["adv", "cmd", "arg"], 0, &["cmd", "arg"]));
    assert!(!strs_eq_from(&["adv", "cmd"], 1, &["cmd", "arg"]));
    assert!(strs_eq_from(&["adv"], 1, &[]));
}
