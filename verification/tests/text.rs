use fgit::text::{is_blank, join_from, same_text, starts_with};

fn strings(words: &[&str]) -> Vec<String> {
    words.iter().map(|w| w.to_string()).collect()
}

#[test]
fn join_from_joins_the_tail() {
    let words = strings(&["a", "b", "c", "d"]);
    assert_eq!(join_from(&words, 0, " "), "a b c d");
    assert_eq!(join_from(&words, 2, ", "), "c, d");
    assert_eq!(join_from(&words, 3, ", "), "d");
    assert_eq!(join_from(&words, 4, ", "), "");
    assert_eq!(join_from(&words, 9, ", "), "");
}

#[test]
fn join_from_keeps_empty_items() {
    assert_eq!(join_from(&strings(&["", ""]), 0, "-"), "-");
    assert_eq!(join_from(&strings(&["", "x", ""]), 0, "-"), "-x-");
    assert_eq!(join_from(&strings(&[]), 0, "-"), "");
    assert_eq!(join_from(&strings(&["x", "y"]), 0, ""), "xy");
}

#[test]
fn starts_with_compares_characters() {
    assert!(starts_with("issue/ABC", "issue/"));
    assert!(starts_with("issue/", "issue/"));
    assert!(starts_with("anything", ""));
    assert!(starts_with("", ""));
    assert!(!starts_with("issue", "issue/"));
    assert!(!starts_with("", "i"));
    assert!(!starts_with("Issue/ABC", "issue/"));
    assert!(starts_with("äöü-1", "äö"));
    assert!(!starts_with("äöü-1", "äü"));
}

#[test]
fn same_text_is_equality() {
    assert!(same_text("", ""));
    assert!(same_text("feat", "feat"));
    assert!(!same_text("feat", "Feat"));
    assert!(!same_text("feat", "feat "));
    assert!(!same_text("feat", "fea"));
}

#[test]
fn blank_is_white_space_only() {
    assert!(is_blank(""));
    assert!(is_blank(" "));
    assert!(is_blank(" \t\r\n"));
    assert!(is_blank("\u{00a0}\u{2003}"));
    assert!(!is_blank("x"));
    assert!(!is_blank("  x  "));
    assert!(!is_blank("-"));
}
