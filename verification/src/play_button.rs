//! Playback controls: what a play button says and shows for its playback
//! state, when its glass effects fall back to a plain surface, and when
//! its press and reveal springs snap instead of animating.
use vstd::prelude::*;

use crate::theme::{Interaction, ThemeSlot};

verus! {

/// A playback control; `playing` selects between play and pause.
#[derive(Clone, Copy, Debug, PartialEq, Eq, Structural)]
pub struct PlayButton {
    pub playing: bool,
}

impl Default for PlayButton {
    fn default() -> (b: Self)
        ensures
            !b.playing,
    {
        PlayButton { playing: false }
    }
}

/// The values of an environment flag that switch it on.
pub open spec fn spec_flag_enabled(value: Option<Seq<char>>) -> bool {
    match value {
        Some(v) => v == "1"@ || v == "true"@ || v == "TRUE"@ || v == "yes"@ || v == "on"@,
        None => false,
    }
}

/// Whether an environment flag with this value is on: `1`, `true`, `TRUE`,
/// `yes` or `on`.
pub fn flag_enabled(value: Option<&str>) -> (r: bool)
    ensures
        r == spec_flag_enabled(match value {
            Some(v) => Some(v@),
            None => None,
        }),
{
    match value {
        Some(v) => crate::text::same_text(v, "1") || crate::text::same_text(v, "true")
            || crate::text::same_text(v, "TRUE") || crate::text::same_text(v, "yes")
            || crate::text::same_text(v, "on"),
        None => false,
    }
}

/// The accessibility preferences and environment switches that shape a
/// play button.
#[derive(Clone, Copy, Debug, PartialEq, Eq, Structural)]
pub struct PlayButtonPolicy {
    pub high_contrast: bool,
    pub reduced_transparency: bool,
    pub reduced_effects: bool,
    pub reduced_motion: bool,
    pub backdrop_disabled_env: bool,
    pub reduced_effects_env: bool,
}

/// How a play button is presented in one frame.
#[derive(Clone, Copy, Debug, PartialEq, Eq, Structural)]
pub struct PlayButtonLook {
    /// It is pressed: enabled and under a pressing pointer.
    pub pressed: bool,
    /// Its surface is plain instead of glass.
    pub plain_surface: bool,
    /// Its springs jump to their targets instead of animating.
    pub snap_springs: bool,
    /// A hover-revealed button is shown in full regardless.
    pub force_visible: bool,
    /// It carries a border in the text colour.
    pub contrast_border: bool,
    /// Keyboard focus skips it.
    pub tab_index: i32,
    /// The colour of its icon and label.
    pub foreground: ThemeSlot,
}

/// The glass effects fall back to a plain surface under high contrast,
/// reduced transparency or effects, or when the environment disables them.
pub open spec fn spec_fallback(p: PlayButtonPolicy) -> bool {
    p.high_contrast || p.reduced_transparency || p.reduced_effects || p.backdrop_disabled_env
        || p.reduced_effects_env
}

/// The presentation of a play button.
pub fn play_button_look(p: PlayButtonPolicy, disabled: bool, interaction: Interaction) -> (l:
    PlayButtonLook)
    ensures
        l == play_button_look_spec(p, disabled, interaction),
{
    let fallback = p.high_contrast || p.reduced_transparency || p.reduced_effects
        || p.backdrop_disabled_env || p.reduced_effects_env;
    let pressed = !disabled && match interaction {
        Interaction::Pressed => true,
        _ => false,
    };
    PlayButtonLook {
        pressed,
        plain_surface: fallback || disabled,
        snap_springs: p.reduced_motion || fallback || disabled,
        force_visible: p.high_contrast || p.reduced_transparency,
        contrast_border: p.high_contrast,
        tab_index: if disabled {
            -1
        } else {
            0
        },
        foreground: if disabled && !p.high_contrast {
            ThemeSlot::TextDisabled
        } else {
            ThemeSlot::Text
        },
    }
}

impl PlayButton {
    /// The label announced and shown: what a press will do.
    pub fn label(&self) -> (r: &'static str)
        ensures
            r@ == (if self.playing {
                "Pause"@
            } else {
                "Play"@
            }),
    {
        if self.playing {
            "Pause"
        } else {
            "Play"
        }
    }

    /// The feather icon shown.
    pub fn glyph(&self) -> (r: &'static str)
        ensures
            r@ == (if self.playing {
                "pause"@
            } else {
                "play"@
            }),
    {
        if self.playing {
            "pause"
        } else {
            "play"
        }
    }
}

/// A disabled play button is never pressed, never glass, and never
/// animates; reduced transparency and high contrast always show it.
pub proof fn lemma_disabled_play_button(p: PlayButtonPolicy, interaction: Interaction)
    ensures
        !play_button_look_spec(p, true, interaction).pressed,
        play_button_look_spec(p, true, interaction).plain_surface,
        play_button_look_spec(p, true, interaction).snap_springs,
        p.high_contrast || p.reduced_transparency ==> play_button_look_spec(
            p,
            false,
            interaction,
        ).force_visible,
{
}

/// The presentation `play_button_look` gives.
pub open spec fn play_button_look_spec(p: PlayButtonPolicy, disabled: bool, interaction: Interaction) -> PlayButtonLook {
    PlayButtonLook {
        pressed: !disabled && interaction == Interaction::Pressed,
        plain_surface: spec_fallback(p) || disabled,
        snap_springs: p.reduced_motion || spec_fallback(p) || disabled,
        force_visible: p.high_contrast || p.reduced_transparency,
        contrast_border: p.high_contrast,
        tab_index: if disabled {
            -1i32
        } else {
            0i32
        },
        foreground: if disabled && !p.high_contrast {
            ThemeSlot::TextDisabled
        } else {
            ThemeSlot::Text
        },
    }
}

} // verus!
