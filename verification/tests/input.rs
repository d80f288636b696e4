use beverly::input::should_show_placeholder;

#[test]
fn shows_placeholder_when_empty_and_unfocused() {
    assert!(should_show_placeholder("", false));
}

#[test]
fn hides_placeholder_when_focused_even_if_empty() {
    assert!(!should_show_placeholder("", true));
}

#[test]
fn hides_placeholder_when_value_is_present() {
    assert!(!should_show_placeholder("hello", false));
}
