use modlog::diff::asymmetric_diff;
use modlog::text::{pluralize, relative_tag, timestamp_tag, u64_to_string};

#[test]
fn pluralize_one_is_singular() {
    assert_eq!(pluralize("attachment", "attachments", 1), "attachment");
}

#[test]
fn pluralize_zero_is_plural() {
    assert_eq!(pluralize("attachment", "attachments", 0), "attachments");
}

#[test]
fn pluralize_two_is_plural() {
    assert_eq!(pluralize("attachment", "attachments", 2), "attachments");
}

#[test]
fn decimal_rendering_exact() {
    assert_eq!(u64_to_string(0), "0");
    assert_eq!(u64_to_string(7), "7");
    assert_eq!(u64_to_string(10), "10");
    assert_eq!(u64_to_string(1234567890), "1234567890");
    assert_eq!(u64_to_string(u64::MAX), "18446744073709551615");
}

#[test]
fn timestamp_tags_exact() {
    assert_eq!(timestamp_tag(1700000000), "<t:1700000000>");
    assert_eq!(relative_tag(5), "<t:5:R>");
}

fn strings(v: &[&str]) -> Vec<String> {
    v.iter().map(|s| s.to_string()).collect()
}

#[test]
fn diff_mixed_inputs() {
    let d = asymmetric_diff(strings(&["a", "b"]), strings(&["b", "c"]));
    assert_eq!(d.added, strings(&["c"]));
    assert_eq!(d.removed, strings(&["a"]));
}

#[test]
fn diff_empty_inputs_give_empty_diff() {
    let d = asymmetric_diff(Vec::new(), Vec::new());
    assert!(d.added.is_empty());
    assert!(d.removed.is_empty());
}

#[test]
fn diff_of_list_with_itself_is_empty() {
    let d = asymmetric_diff(strings(&["x", "y"]), strings(&["x", "y"]));
    assert!(d.added.is_empty());
    assert!(d.removed.is_empty());
}

#[test]
fn diff_disjoint_inputs_copy_each_side() {
    let d = asymmetric_diff(strings(&["a", "b"]), strings(&["c"]));
    assert_eq!(d.added, strings(&["c"]));
    assert_eq!(d.removed, strings(&["a", "b"]));
}

#[test]
fn diff_collapses_duplicates() {
    let d = asymmetric_diff(strings(&["a", "a"]), strings(&[]));
    assert_eq!(d.added, strings(&[]));
    assert_eq!(d.removed, strings(&["a"]));
}

#[test]
fn diff_swap_turns_removals_into_additions() {
    let d1 = asymmetric_diff(strings(&["a", "b"]), strings(&["b", "c"]));
    let d2 = asymmetric_diff(strings(&["b", "c"]), strings(&["a", "b"]));
    assert_eq!(d1.removed, d2.added);
    assert_eq!(d1.added, d2.removed);
}

#[test]
fn diff_ignores_input_order() {
    let d = asymmetric_diff(strings(&["b", "a"]), strings(&["c", "b"]));
    assert_eq!(d.added, strings(&["c"]));
    assert_eq!(d.removed, strings(&["a"]));
}
