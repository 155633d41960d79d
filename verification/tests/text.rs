use confuse::text::{
    chars_of, clone_path, ends_with, replace_char, same_path, same_text, starts_with_path,
};

fn path(parts: &[&str]) -> Vec<String> {
    parts.iter().map(|part| part.to_string()).collect()
}

#[test]
fn chars_come_in_order() {
    assert_eq!(chars_of("aé∑z"), vec!['a', 'é', '∑', 'z']);
    assert!(chars_of("").is_empty());
}

#[test]
fn same_text_compares_characters() {
    assert!(same_text("harness", "harness"));
    assert!(same_text("", ""));
    assert!(!same_text("harness", "harnes"));
    assert!(!same_text("harness", "Harness"));
}

#[test]
fn ends_with_holds_the_tail() {
    assert!(ends_with("libx.so", ".so"));
    assert!(ends_with("libx.so", ""));
    assert!(ends_with(".so", ".so"));
    assert!(ends_with("né", "é"));
    assert!(!ends_with("so", ".so"));
    assert!(!ends_with("libx.so.1", ".so"));
    assert!(!ends_with("", "a"));
}

#[test]
fn replace_char_replaces_every_occurrence() {
    assert_eq!(replace_char("a-b--c-", '-', '_'), "a_b__c_");
    assert_eq!(replace_char("abc", '-', '_'), "abc");
    assert_eq!(replace_char("", '-', '_'), "");
    assert_eq!(replace_char("é-é", 'é', 'e'), "e-e");
}

#[test]
fn paths_are_compared_by_component() {
    assert!(same_path(&path(&["a", "b"]), &path(&["a", "b"])));
    assert!(same_path(&path(&[]), &path(&[])));
    assert!(!same_path(&path(&["a", "b"]), &path(&["a"])));
    assert!(!same_path(&path(&["a", "b"]), &path(&["a", "c"])));
    assert!(!same_path(&path(&["ab"]), &path(&["a", "b"])));
    assert_eq!(clone_path(&path(&["a", "", "c"])), path(&["a", "", "c"]));
}

#[test]
fn prefix_of_a_path_is_made_of_whole_components() {
    assert!(starts_with_path(&path(&["a", "b", "c"]), &path(&["a", "b"])));
    assert!(starts_with_path(&path(&["a", "b"]), &path(&["a", "b"])));
    assert!(starts_with_path(&path(&["a"]), &path(&[])));
    assert!(!starts_with_path(&path(&["a"]), &path(&["a", "b"])));
    assert!(!starts_with_path(&path(&["ab", "c"]), &path(&["a"])));
    assert!(!starts_with_path(&path(&["x", "b"]), &path(&["a"])));
}
