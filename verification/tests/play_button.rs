use beverly::play_button::{flag_enabled, play_button_look, PlayButton, PlayButtonPolicy};
use beverly::theme::{Interaction, ThemeSlot};

fn policy() -> PlayButtonPolicy {
    PlayButtonPolicy {
        high_contrast: false,
        reduced_transparency: false,
        reduced_effects: false,
        reduced_motion: false,
        backdrop_disabled_env: false,
        reduced_effects_env: false,
    }
}

#[test]
fn play_button_bootstraps_glass_and_preserves_original_icon_sizes() {
    let button = PlayButton::default();
    let look = play_button_look(policy(), false, Interaction::Idle);
    assert!(!look.plain_surface);
    assert_eq!(look.tab_index, 0);
    assert_eq!(button.label(), "Play");
    assert_eq!(look.foreground, ThemeSlot::Text);
}

#[test]
fn play_button_syncs_pause_theme_and_disabled_semantics() {
    let mut button = PlayButton::default();
    button.playing = true;
    assert_eq!(button.label(), "Pause");
    assert_eq!(button.glyph(), "pause");
    assert_eq!(play_button_look(policy(), false, Interaction::Idle).foreground, ThemeSlot::Text);

    let look = play_button_look(policy(), true, Interaction::Pressed);
    assert!(!look.pressed);
    assert_eq!(look.tab_index, -1);
    assert!(look.snap_springs);

    let look = play_button_look(policy(), false, Interaction::Pressed);
    assert!(look.pressed);
    assert_eq!(look.tab_index, 0);
}

#[test]
fn play_button_falls_back_for_every_visual_policy_and_environment_flag() {
    for variant in 0..5 {
        let mut p = policy();
        match variant {
            0 => p.reduced_transparency = true,
            1 => p.reduced_effects = true,
            2 => p.high_contrast = true,
            3 => p.backdrop_disabled_env = true,
            _ => p.reduced_effects_env = true,
        }
        let look = play_button_look(p, false, Interaction::Idle);
        assert!(look.plain_surface);
        if variant == 2 {
            assert!(look.contrast_border);
        }
    }
}

#[test]
fn play_button_press_deforms_only_glass_and_reduced_motion_snaps() {
    let look = play_button_look(policy(), false, Interaction::Pressed);
    assert!(look.pressed && !look.snap_springs);
    let reduced = PlayButtonPolicy { reduced_motion: true, ..policy() };
    let look = play_button_look(reduced, false, Interaction::Pressed);
    assert!(look.pressed && look.snap_springs);
}

#[test]
fn play_button_hover_reveal_hides_by_default_and_fades_in_when_visible() {
    assert!(!play_button_look(policy(), false, Interaction::Idle).force_visible);
    let see = PlayButtonPolicy { reduced_transparency: true, ..policy() };
    assert!(play_button_look(see, false, Interaction::Idle).force_visible);
}

#[test]
fn environment_flags_accept_the_usual_spellings() {
    for on in ["1", "true", "TRUE", "yes", "on"] {
        assert!(flag_enabled(Some(on)));
    }
    for off in ["0", "True", "no", ""] {
        assert!(!flag_enabled(Some(off)));
    }
    assert!(!flag_enabled(None));
}
