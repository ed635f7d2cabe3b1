use aws_lite::text::{concat2, same_text, starts_with};

#[test]
fn starts_with_compares_characters() {
    assert!(starts_with("https://x", "https://"));
    assert!(starts_with("abc", ""));
    assert!(starts_with("", ""));
    assert!(!starts_with("ab", "abc"));
    assert!(!starts_with("xbc", "ab"));
    assert!(starts_with("héllo", "hé"));
    assert!(!starts_with("hello", "hé"));
}

#[test]
fn same_text_is_equality() {
    assert!(same_text("", ""));
    assert!(same_text("s3", "s3"));
    assert!(!same_text("s3", "s4"));
    assert!(!same_text("s3", "s3 "));
    assert!(same_text("é", "é"));
}

#[test]
fn concat2_appends() {
    assert_eq!(concat2("", ""), "");
    assert_eq!(concat2("ab", "cd"), "abcd");
    assert_eq!(concat2("a", ""), "a");
}
