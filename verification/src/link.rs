//! Links: a text with an optional icon that announces clicks while
//! enabled, and the colour of its text.
use vstd::prelude::*;

use crate::theme::{Interaction, ThemeSlot};

verus! {

/// A link was clicked.
#[derive(Clone, Copy, Debug, PartialEq, Eq, Structural)]
pub struct LinkClicked {
    pub entity: u64,
}

/// A link: its text, an optional icon, and whether it is disabled.
pub struct Link {
    pub text: String,
    pub icon: Option<String>,
    pub disabled: bool,
}

impl Link {
    /// An enabled link without icon.
    pub fn new(text: String) -> (l: Self)
        ensures
            l == (Link { text, icon: None, disabled: false }),
    {
        Link { text, icon: None, disabled: false }
    }

    /// Sets the icon.
    pub fn icon(self, icon: String) -> (l: Self)
        ensures
            l == (Link { icon: Some(icon), ..self }),
    {
        Link { icon: Some(icon), ..self }
    }

    /// Enables or disables the link.
    pub fn disabled(self, disabled: bool) -> (l: Self)
        ensures
            l == (Link { disabled, ..self }),
    {
        Link { disabled, ..self }
    }
}

/// A press on an enabled link announces a click.
pub fn link_pressed(entity: u64, link: &Link, interaction: Interaction) -> (ev: Option<LinkClicked>)
    ensures
        ev == (if !link.disabled && interaction == Interaction::Pressed {
            Some(LinkClicked { entity })
        } else {
            None
        }),
{
    if link.disabled {
        return None;
    }
    match interaction {
        Interaction::Pressed => Some(LinkClicked { entity }),
        _ => None,
    }
}

/// The colour of a link's text: muted while disabled, else the primary
/// colour of the pointer state (`None`: the link has no pointer state).
pub fn link_text_slot(link: &Link, interaction: Option<Interaction>) -> (slot: ThemeSlot)
    ensures
        slot == (if link.disabled {
            ThemeSlot::TextDisabled
        } else {
            match interaction {
                Some(Interaction::Hovered) => ThemeSlot::PrimaryHover,
                Some(Interaction::Pressed) => ThemeSlot::PrimaryActive,
                _ => ThemeSlot::Primary,
            }
        }),
{
    if link.disabled {
        ThemeSlot::TextDisabled
    } else {
        match interaction {
            Some(Interaction::Hovered) => ThemeSlot::PrimaryHover,
            Some(Interaction::Pressed) => ThemeSlot::PrimaryActive,
            _ => ThemeSlot::Primary,
        }
    }
}

} // verus!
