use beverly::avatar::{normalize_initials, AvatarContent};

#[test]
fn initials_drop_spaces_keep_three_and_upper_case() {
    assert_eq!(normalize_initials("ab c d"), "ABC");
    assert_eq!(normalize_initials(" j d "), "JD");
    assert_eq!(normalize_initials("v v"), "VV");
    assert_eq!(normalize_initials("abcd"), "ABC");
    assert_eq!(normalize_initials(""), "");
    assert_eq!(normalize_initials(" \t "), "");
    match AvatarContent::initials("é x") {
        AvatarContent::Initials(s) => assert_eq!(s, "ÉX"),
        AvatarContent::Image(_) => panic!("expected initials"),
    }
}

#[test]
fn initials_are_limited_after_upper_casing() {
    assert_eq!(normalize_initials("ßßß"), "SSS");
    assert_eq!(normalize_initials("\u{fb03}"), "FFI");
    assert_eq!(normalize_initials("\u{fb03}x"), "FFI");
    assert!(normalize_initials("ßßßßß").chars().count() <= 3);
}
