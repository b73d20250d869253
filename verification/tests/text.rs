use nostr_faucet_e2e::text::{contains, join_lines, number, quoted_list, same};

#[test]
fn numbers_are_written_in_decimal() {
    assert_eq!(number(0), "0");
    assert_eq!(number(9), "9");
    assert_eq!(number(10), "10");
    assert_eq!(number(100_000_000), "100000000");
    assert_eq!(number(u64::MAX), "18446744073709551615");
}

#[test]
fn texts_are_compared() {
    assert!(same("UNAUTHORIZED", "UNAUTHORIZED"));
    assert!(!same("UNAUTHORIZED", "unauthorized"));
    assert!(!same("", " "));
    assert!(same("", ""));
}

#[test]
fn a_text_is_found_in_another() {
    assert!(contains("refused by the total cap", "total cap"));
    assert!(contains("total cap", "total cap"));
    assert!(contains("aaab", "aab"));
    assert!(contains("x", ""));
    assert!(contains("", ""));
    assert!(contains("größe der quota", "quota"));
}

#[test]
fn a_text_is_not_found_in_another() {
    assert!(!contains("total ca", "total cap"));
    assert!(!contains("", "q"));
    assert!(!contains("Quota", "quota"));
    assert!(!contains("total  cap", "total cap"));
}

#[test]
fn lists_are_written_as_debug_writes_them() {
    let methods = vec!["get_info".to_string(), "a \"quoted\" one".to_string()];
    assert_eq!(quoted_list(&methods), format!("{:?}", methods));
    assert_eq!(quoted_list(&methods), "[\"get_info\", \"a \\\"quoted\\\" one\"]");
    assert_eq!(quoted_list(&vec![]), "[]");
    assert_eq!(quoted_list(&vec!["x".to_string()]), "[\"x\"]");
}

#[test]
fn lines_are_joined_with_a_newline_each() {
    assert_eq!(join_lines(&vec![]), "");
    assert_eq!(join_lines(&vec!["a".to_string(), String::new(), "b".to_string()]), "a\n\nb\n");
}
