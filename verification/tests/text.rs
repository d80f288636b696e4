use beverly::text::{chars_less, chars_of, contains_str, eq_ignore_ascii_case, is_blank, same_text, string_of};

#[test]
fn text_helpers() {
    assert!(contains_str("hello world", "o w"));
    assert!(contains_str("abc", ""));
    assert!(!contains_str("abc", "abcd"));
    assert!(!contains_str("abc", "cb"));
    assert!(is_blank(" \t\u{3000}"));
    assert!(!is_blank(" x "));
    assert!(same_text("é", "é"));
    assert!(!same_text("a", "ab"));
    assert!(eq_ignore_ascii_case("PnG", "png"));
    assert!(!eq_ignore_ascii_case("É", "é"));
    assert!(chars_less(&chars_of("ab"), &chars_of("b")));
    assert!(chars_less(&chars_of("ab"), &chars_of("abc")));
    assert!(!chars_less(&chars_of("abc"), &chars_of("abc")));
    assert_eq!(string_of(&chars_of("zß")), "zß");
}
