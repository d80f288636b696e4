use beverly::dropdown::{arrow_icon, label_slot, Dropdown, DropdownConfig};
use beverly::input::{
    accessible_name, floating_label_slot, surface_slots, value_text_slot, TextInput,
    TextInputConfig, TextInputKind,
};
use beverly::theme::ThemeSlot;

#[test]
fn accessible_name_prefers_the_floating_label() {
    let plain = TextInputConfig::new("Search".to_string());
    assert_eq!(accessible_name(&plain), "Search");
    let labelled = TextInputConfig::new("you@example.com".to_string()).floating_label("Email".to_string());
    assert_eq!(accessible_name(&labelled), "Email");
}

#[test]
fn input_colours_follow_kind_focus_and_disabled() {
    let mut input = TextInput::from_config(TextInputConfig::new("Name".to_string()).floating_label("Name".to_string()));
    assert_eq!(surface_slots(&input, false), (ThemeSlot::Surface, ThemeSlot::BorderStrong));
    assert_eq!(surface_slots(&input, true), (ThemeSlot::SurfaceElevated, ThemeSlot::Focus));
    assert_eq!(floating_label_slot(&input, false), ThemeSlot::TextMuted);
    assert_eq!(floating_label_slot(&input, true), ThemeSlot::Focus);
    assert_eq!(value_text_slot(&input), ThemeSlot::Text);
    input.disabled = true;
    assert_eq!(surface_slots(&input, true), (ThemeSlot::SurfaceElevated, ThemeSlot::Border));
    assert_eq!(floating_label_slot(&input, true), ThemeSlot::TextDisabled);
    assert_eq!(value_text_slot(&input), ThemeSlot::TextDisabled);
    input.kind = TextInputKind::Search;
    assert_eq!(surface_slots(&input, true), (ThemeSlot::Surface, ThemeSlot::Focus));
    assert_eq!(surface_slots(&input, false), (ThemeSlot::Surface, ThemeSlot::Border));
}

#[test]
fn dropdown_arrow_and_label_colours() {
    let config = DropdownConfig::new("Pick".to_string()).option("A".to_string(), "a".to_string());
    let (dropdown, mut state, _) = Dropdown::from_config(config);
    assert_eq!(label_slot(&dropdown, &state), ThemeSlot::TextMuted);
    assert_eq!(arrow_icon(&state), ("chevron-down", ThemeSlot::TextMuted));
    state.open = true;
    state.selected = Some(0);
    assert_eq!(arrow_icon(&state), ("chevron-up", ThemeSlot::Text));
    assert_eq!(label_slot(&dropdown, &state), ThemeSlot::Text);
}
