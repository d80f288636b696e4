use beverly::button::{
    disabled_marker_change, resolve_button_colors, BeverlyButton, ButtonColor, ButtonShade,
    MarkerChange, StateLevel,
};
use beverly::theme::{Interaction, ThemeSlot};

#[test]
fn primary_button_spawns_surface_and_accessible_button_node() {
    let button = BeverlyButton::primary("Deploy".to_string());
    assert_eq!(button.tab_index(), 0);
    assert_eq!(button.label, "Deploy");
    assert_eq!(disabled_marker_change(button.disabled, false), MarkerChange::Keep);
}

#[test]
fn disabled_button_blocks_interaction_and_is_announced_disabled() {
    let button = BeverlyButton::danger("Delete".to_string()).disabled(true);
    assert_eq!(button.tab_index(), -1);
    assert!(button.disabled);
    assert_eq!(disabled_marker_change(button.disabled, false), MarkerChange::Insert);
}

#[test]
fn toggling_disabled_at_runtime_updates_a11y_state() {
    let mut button = BeverlyButton::primary("Save".to_string());
    let mut has_marker = false;
    assert_eq!(disabled_marker_change(button.disabled, has_marker), MarkerChange::Keep);

    button.disabled = true;
    assert_eq!(disabled_marker_change(button.disabled, has_marker), MarkerChange::Insert);
    has_marker = true;
    assert_eq!(button.tab_index(), -1);

    button.disabled = false;
    assert_eq!(disabled_marker_change(button.disabled, has_marker), MarkerChange::Remove);
    assert_eq!(button.tab_index(), 0);
}

#[test]
fn block_button_stretches_to_full_width() {
    let button = BeverlyButton::secondary("Continue".to_string()).block(true);
    assert!(button.block);
}

#[test]
fn non_block_button_keeps_auto_width() {
    let button = BeverlyButton::secondary("Continue".to_string());
    assert!(!button.block);
}

#[test]
fn text_variant_has_no_fill_or_border() {
    let button = BeverlyButton::text("Learn more".to_string());
    let colors = resolve_button_colors(&button, Interaction::Idle);
    assert_eq!(colors.fill, ButtonShade::Theme(ThemeSlot::Transparent));
    assert_eq!(colors.border, ButtonShade::Theme(ThemeSlot::Transparent));
}

#[test]
fn outline_variant_is_transparent_at_rest_and_tinted_on_hover() {
    let button = BeverlyButton::danger("Delete".to_string()).outline(true);
    let rest = resolve_button_colors(&button, Interaction::Idle);
    assert_eq!(rest.fill, ButtonShade::Theme(ThemeSlot::Transparent));
    assert_eq!(rest.border, ButtonShade::Theme(ThemeSlot::Error));
    assert_eq!(rest.foreground, ButtonShade::Theme(ThemeSlot::Error));

    let hover = resolve_button_colors(&button, Interaction::Hovered);
    assert_ne!(hover.fill, ButtonShade::Theme(ThemeSlot::Transparent));
    assert_eq!(hover.fill, ButtonShade::Faded(ThemeSlot::Error, StateLevel::Hover));
}

#[test]
fn solid_variants_pick_readable_foreground_for_every_color() {
    for color in [
        ButtonColor::Primary,
        ButtonColor::Secondary,
        ButtonColor::Success,
        ButtonColor::Danger,
        ButtonColor::Warning,
        ButtonColor::Info,
        ButtonColor::Light,
        ButtonColor::Dark,
    ] {
        let button = BeverlyButton::new(color, "Label".to_string());
        let colors = resolve_button_colors(&button, Interaction::Idle);
        assert_eq!(colors.foreground, ButtonShade::ReadableOnFill, "{color:?}");
        assert_eq!(colors.fill, colors.border);
    }
}

#[test]
fn disabled_buttons_use_neutral_muted_colors_regardless_of_variant() {
    let button = BeverlyButton::success("Save".to_string()).disabled(true);
    let colors = resolve_button_colors(&button, Interaction::Hovered);
    assert_eq!(colors.fill, ButtonShade::Theme(ThemeSlot::Border));
    assert_eq!(colors.border, ButtonShade::Theme(ThemeSlot::Border));
    assert_eq!(colors.foreground, ButtonShade::Theme(ThemeSlot::TextDisabled));
}

#[test]
fn primary_uses_theme_hover_and_active_and_others_tint() {
    let primary = BeverlyButton::primary("Go".to_string());
    assert_eq!(
        resolve_button_colors(&primary, Interaction::Pressed).fill,
        ButtonShade::Theme(ThemeSlot::PrimaryActive)
    );
    let info = BeverlyButton::info("Go".to_string());
    assert_eq!(
        resolve_button_colors(&info, Interaction::Hovered).fill,
        ButtonShade::Tinted(ThemeSlot::Info, StateLevel::Hover)
    );
    let text = BeverlyButton::text("Go".to_string()).disabled(true);
    assert_eq!(
        resolve_button_colors(&text, Interaction::Idle).fill,
        ButtonShade::Theme(ThemeSlot::Transparent)
    );
}
