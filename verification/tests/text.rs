use codey::text::{copy_optional, joined, same_text};

#[test]
fn text_helpers() {
    assert_eq!(joined("ab", "\u{e9}"), "ab\u{e9}");
    assert_eq!(joined("", ""), "");
    assert!(same_text("a", "a"));
    assert!(!same_text("a", "A"));
    assert_eq!(copy_optional(&Some("x".to_string())), Some("x".to_string()));
    assert_eq!(copy_optional(&None), None);
}
