//! Buttons: their colour roles and flags, and which theme colours paint
//! their fill, border and text in each pointer state. Mixing and alpha are
//! left to the renderer; the recipe says which colour goes where.
use vstd::prelude::*;

use crate::theme::{Interaction, ThemeSlot};

verus! {

/// The colour role of a button; `Text` has no fill or border.
#[derive(Clone, Copy, Debug, PartialEq, Eq, Structural)]
pub enum ButtonColor {
    Primary,
    Secondary,
    Success,
    Danger,
    Warning,
    Info,
    Light,
    Dark,
    Text,
}

/// The theme colour a role is built around.
pub open spec fn spec_base_slot(c: ButtonColor) -> ThemeSlot {
    match c {
        ButtonColor::Primary => ThemeSlot::Primary,
        ButtonColor::Secondary => ThemeSlot::Secondary,
        ButtonColor::Success => ThemeSlot::Success,
        ButtonColor::Danger => ThemeSlot::Error,
        ButtonColor::Warning => ThemeSlot::Warning,
        ButtonColor::Info => ThemeSlot::Info,
        ButtonColor::Light => ThemeSlot::LightSurface,
        ButtonColor::Dark => ThemeSlot::DarkSurface,
        ButtonColor::Text => ThemeSlot::Transparent,
    }
}

impl ButtonColor {
    /// The theme colour this role is built around.
    pub fn base_slot(self) -> (slot: ThemeSlot)
        ensures
            slot == spec_base_slot(self),
    {
        match self {
            ButtonColor::Primary => ThemeSlot::Primary,
            ButtonColor::Secondary => ThemeSlot::Secondary,
            ButtonColor::Success => ThemeSlot::Success,
            ButtonColor::Danger => ThemeSlot::Error,
            ButtonColor::Warning => ThemeSlot::Warning,
            ButtonColor::Info => ThemeSlot::Info,
            ButtonColor::Light => ThemeSlot::LightSurface,
            ButtonColor::Dark => ThemeSlot::DarkSurface,
            ButtonColor::Text => ThemeSlot::Transparent,
        }
    }
}

/// A themed, accessible push button.
pub struct BeverlyButton {
    pub label: String,
    pub icon: Option<&'static str>,
    pub color: ButtonColor,
    pub outline: bool,
    pub disabled: bool,
    pub block: bool,
}

impl BeverlyButton {
    /// An enabled, solid, auto-width button of role `color` without icon.
    pub fn new(color: ButtonColor, label: String) -> (b: Self)
        ensures
            b == (BeverlyButton {
                label,
                icon: None,
                color,
                outline: false,
                disabled: false,
                block: false,
            }),
    {
        BeverlyButton { label, icon: None, color, outline: false, disabled: false, block: false }
    }

    /// The button `new` makes.
    pub open spec fn new_spec(color: ButtonColor, label: String) -> BeverlyButton {
        BeverlyButton { label, icon: None, color, outline: false, disabled: false, block: false }
    }

    /// A primary button.
    pub fn primary(label: String) -> (b: Self)
        ensures
            b == Self::new_spec(ButtonColor::Primary, label),
    {
        Self::new(ButtonColor::Primary, label)
    }

    /// A secondary button.
    pub fn secondary(label: String) -> (b: Self)
        ensures
            b == Self::new_spec(ButtonColor::Secondary, label),
    {
        Self::new(ButtonColor::Secondary, label)
    }

    /// A success button.
    pub fn success(label: String) -> (b: Self)
        ensures
            b == Self::new_spec(ButtonColor::Success, label),
    {
        Self::new(ButtonColor::Success, label)
    }

    /// A danger button.
    pub fn danger(label: String) -> (b: Self)
        ensures
            b == Self::new_spec(ButtonColor::Danger, label),
    {
        Self::new(ButtonColor::Danger, label)
    }

    /// A warning button.
    pub fn warning(label: String) -> (b: Self)
        ensures
            b == Self::new_spec(ButtonColor::Warning, label),
    {
        Self::new(ButtonColor::Warning, label)
    }

    /// An informational button.
    pub fn info(label: String) -> (b: Self)
        ensures
            b == Self::new_spec(ButtonColor::Info, label),
    {
        Self::new(ButtonColor::Info, label)
    }

    /// A light button.
    pub fn light(label: String) -> (b: Self)
        ensures
            b == Self::new_spec(ButtonColor::Light, label),
    {
        Self::new(ButtonColor::Light, label)
    }

    /// A dark button.
    pub fn dark(label: String) -> (b: Self)
        ensures
            b == Self::new_spec(ButtonColor::Dark, label),
    {
        Self::new(ButtonColor::Dark, label)
    }

    /// A text-only button, like a link.
    pub fn text(label: String) -> (b: Self)
        ensures
            b == Self::new_spec(ButtonColor::Text, label),
    {
        Self::new(ButtonColor::Text, label)
    }

    /// Sets the feather icon shown before the label.
    pub fn icon(self, icon: &'static str) -> (b: Self)
        ensures
            b == (BeverlyButton { icon: Some(icon), ..self }),
    {
        BeverlyButton { icon: Some(icon), ..self }
    }

    /// A transparent fill with a coloured border and label.
    pub fn outline(self, outline: bool) -> (b: Self)
        ensures
            b == (BeverlyButton { outline, ..self }),
    {
        BeverlyButton { outline, ..self }
    }

    /// Blocks activation and announces the button as disabled.
    pub fn disabled(self, disabled: bool) -> (b: Self)
        ensures
            b == (BeverlyButton { disabled, ..self }),
    {
        BeverlyButton { disabled, ..self }
    }

    /// Stretches the button to the full width of its parent.
    pub fn block(self, block: bool) -> (b: Self)
        ensures
            b == (BeverlyButton { block, ..self }),
    {
        BeverlyButton { block, ..self }
    }

    /// The keyboard tab index: a disabled button is skipped.
    pub fn tab_index(&self) -> (i: i32)
        ensures
            i == (if self.disabled {
                -1i32
            } else {
                0i32
            }),
    {
        if self.disabled {
            -1
        } else {
            0
        }
    }
}

/// The feedback level of a pointer state.
#[derive(Clone, Copy, Debug, PartialEq, Eq, Structural)]
pub enum StateLevel {
    Hover,
    Press,
}

/// How one part of a button is painted.
#[derive(Clone, Copy, Debug, PartialEq, Eq, Structural)]
pub enum ButtonShade {
    /// A theme colour as it is.
    Theme(ThemeSlot),
    /// A theme colour made translucent for the state.
    Faded(ThemeSlot, StateLevel),
    /// A theme colour nudged towards black or white for the state.
    Tinted(ThemeSlot, StateLevel),
    /// White or near-black, whichever reads on the fill.
    ReadableOnFill,
}

/// The paint of a button's fill, border and text.
#[derive(Clone, Copy, Debug, PartialEq, Eq, Structural)]
pub struct ButtonColors {
    pub fill: ButtonShade,
    pub border: ButtonShade,
    pub foreground: ButtonShade,
}

/// The colours of a button in a pointer state. Disabled buttons are
/// neutral whatever their role; text buttons have no fill or border and
/// colour their text by state; outline buttons fade their role's colour in
/// on hover and press; solid buttons use the theme's own hover and active
/// primaries, tint other roles by state, and pick readable text.
pub open spec fn spec_button_colors(
    color: ButtonColor,
    outline: bool,
    disabled: bool,
    interaction: Interaction,
) -> ButtonColors {
    if disabled {
        if outline || color == ButtonColor::Text {
            ButtonColors {
                fill: ButtonShade::Theme(ThemeSlot::Transparent),
                border: ButtonShade::Theme(ThemeSlot::Border),
                foreground: ButtonShade::Theme(ThemeSlot::TextDisabled),
            }
        } else {
            ButtonColors {
                fill: ButtonShade::Theme(ThemeSlot::Border),
                border: ButtonShade::Theme(ThemeSlot::Border),
                foreground: ButtonShade::Theme(ThemeSlot::TextDisabled),
            }
        }
    } else if color == ButtonColor::Text {
        ButtonColors {
            fill: ButtonShade::Theme(ThemeSlot::Transparent),
            border: ButtonShade::Theme(ThemeSlot::Transparent),
            foreground: ButtonShade::Theme(
                match interaction {
                    Interaction::Pressed => ThemeSlot::PrimaryActive,
                    Interaction::Hovered => ThemeSlot::PrimaryHover,
                    Interaction::Idle => ThemeSlot::Primary,
                },
            ),
        }
    } else if outline {
        let base = spec_base_slot(color);
        ButtonColors {
            fill: match interaction {
                Interaction::Idle => ButtonShade::Theme(ThemeSlot::Transparent),
                Interaction::Hovered => ButtonShade::Faded(base, StateLevel::Hover),
                Interaction::Pressed => ButtonShade::Faded(base, StateLevel::Press),
            },
            border: ButtonShade::Theme(base),
            foreground: ButtonShade::Theme(base),
        }
    } else {
        let base = spec_base_slot(color);
        let fill = if color == ButtonColor::Primary {
            ButtonShade::Theme(
                match interaction {
                    Interaction::Idle => ThemeSlot::Primary,
                    Interaction::Hovered => ThemeSlot::PrimaryHover,
                    Interaction::Pressed => ThemeSlot::PrimaryActive,
                },
            )
        } else {
            match interaction {
                Interaction::Idle => ButtonShade::Theme(base),
                Interaction::Hovered => ButtonShade::Tinted(base, StateLevel::Hover),
                Interaction::Pressed => ButtonShade::Tinted(base, StateLevel::Press),
            }
        };
        ButtonColors { fill, border: fill, foreground: ButtonShade::ReadableOnFill }
    }
}

/// The colours of `button` in the pointer state `interaction`.
pub fn resolve_button_colors(button: &BeverlyButton, interaction: Interaction) -> (c: ButtonColors)
    ensures
        c == spec_button_colors(button.color, button.outline, button.disabled, interaction),
{
    if button.disabled {
        let foreground = ButtonShade::Theme(ThemeSlot::TextDisabled);
        let is_text = match button.color {
            ButtonColor::Text => true,
            _ => false,
        };
        return if button.outline || is_text {
            ButtonColors {
                fill: ButtonShade::Theme(ThemeSlot::Transparent),
                border: ButtonShade::Theme(ThemeSlot::Border),
                foreground,
            }
        } else {
            ButtonColors {
                fill: ButtonShade::Theme(ThemeSlot::Border),
                border: ButtonShade::Theme(ThemeSlot::Border),
                foreground,
            }
        };
    }
    if let ButtonColor::Text = button.color {
        let foreground = match interaction {
            Interaction::Pressed => ThemeSlot::PrimaryActive,
            Interaction::Hovered => ThemeSlot::PrimaryHover,
            Interaction::Idle => ThemeSlot::Primary,
        };
        return ButtonColors {
            fill: ButtonShade::Theme(ThemeSlot::Transparent),
            border: ButtonShade::Theme(ThemeSlot::Transparent),
            foreground: ButtonShade::Theme(foreground),
        };
    }
    let base = button.color.base_slot();
    if button.outline {
        let fill = match interaction {
            Interaction::Idle => ButtonShade::Theme(ThemeSlot::Transparent),
            Interaction::Hovered => ButtonShade::Faded(base, StateLevel::Hover),
            Interaction::Pressed => ButtonShade::Faded(base, StateLevel::Press),
        };
        return ButtonColors {
            fill,
            border: ButtonShade::Theme(base),
            foreground: ButtonShade::Theme(base),
        };
    }
    let fill = match (button.color, interaction) {
        (ButtonColor::Primary, Interaction::Idle) => ButtonShade::Theme(ThemeSlot::Primary),
        (ButtonColor::Primary, Interaction::Hovered) => ButtonShade::Theme(ThemeSlot::PrimaryHover),
        (ButtonColor::Primary, Interaction::Pressed) => ButtonShade::Theme(ThemeSlot::PrimaryActive),
        (_, Interaction::Idle) => ButtonShade::Theme(base),
        (_, Interaction::Hovered) => ButtonShade::Tinted(base, StateLevel::Hover),
        (_, Interaction::Pressed) => ButtonShade::Tinted(base, StateLevel::Press),
    };
    ButtonColors { fill, border: fill, foreground: ButtonShade::ReadableOnFill }
}

/// What to do with the marker that blocks a button's interaction.
#[derive(Clone, Copy, Debug, PartialEq, Eq, Structural)]
pub enum MarkerChange {
    Insert,
    Remove,
    Keep,
}

/// Keeps the blocking marker in step with the disabled flag.
pub fn disabled_marker_change(disabled: bool, has_marker: bool) -> (m: MarkerChange)
    ensures
        m == (if disabled && !has_marker {
            MarkerChange::Insert
        } else if !disabled && has_marker {
            MarkerChange::Remove
        } else {
            MarkerChange::Keep
        }),
{
    if disabled && !has_marker {
        MarkerChange::Insert
    } else if !disabled && has_marker {
        MarkerChange::Remove
    } else {
        MarkerChange::Keep
    }
}

/// A disabled button is painted neutral and muted whatever its role,
/// outline flag or pointer state; only the fill depends on whether it has
/// a fill at all.
pub proof fn lemma_disabled_is_neutral(c: ButtonColor, outline: bool, interaction: Interaction)
    ensures
        spec_button_colors(c, outline, true, interaction).border == ButtonShade::Theme(
            ThemeSlot::Border,
        ),
        spec_button_colors(c, outline, true, interaction).foreground == ButtonShade::Theme(
            ThemeSlot::TextDisabled,
        ),
        spec_button_colors(c, outline, true, interaction) == spec_button_colors(
            c,
            outline,
            true,
            Interaction::Idle,
        ),
{
}

/// An enabled text button never has a fill or a border.
pub proof fn lemma_text_has_no_fill_or_border(outline: bool, interaction: Interaction)
    ensures
        spec_button_colors(ButtonColor::Text, outline, false, interaction).fill
            == ButtonShade::Theme(ThemeSlot::Transparent),
        spec_button_colors(ButtonColor::Text, outline, false, interaction).border
            == ButtonShade::Theme(ThemeSlot::Transparent),
{
}

/// An enabled outline button is transparent at rest, shows its role's
/// colour on hover and press, and keeps its border and text in that colour.
pub proof fn lemma_outline_fill(c: ButtonColor, interaction: Interaction)
    requires
        c != ButtonColor::Text,
    ensures
        (spec_button_colors(c, true, false, interaction).fill == ButtonShade::Theme(
            ThemeSlot::Transparent,
        )) <==> interaction == Interaction::Idle,
        spec_button_colors(c, true, false, interaction).border == ButtonShade::Theme(
            spec_base_slot(c),
        ),
        spec_button_colors(c, true, false, interaction).foreground == ButtonShade::Theme(
            spec_base_slot(c),
        ),
{
}

/// An enabled solid button always picks its text colour to read on its
/// fill, and its border matches its fill.
pub proof fn lemma_solid_reads_on_fill(c: ButtonColor, interaction: Interaction)
    requires
        c != ButtonColor::Text,
    ensures
        spec_button_colors(c, false, false, interaction).foreground == ButtonShade::ReadableOnFill,
        spec_button_colors(c, false, false, interaction).border == spec_button_colors(
            c,
            false,
            false,
            interaction,
        ).fill,
{
}

} // verus!
