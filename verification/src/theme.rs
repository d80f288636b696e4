//! Pointer interaction states and the named colours of the active theme
//! that widgets choose between.
use vstd::prelude::*;

verus! {

/// The pointer's relation to a widget.
#[derive(Clone, Copy, Debug, PartialEq, Eq, Structural)]
pub enum Interaction {
    Pressed,
    Hovered,
    /// Neither hovered nor pressed.
    Idle,
}

/// A named colour of the active theme.
#[derive(Clone, Copy, Debug, PartialEq, Eq, Structural)]
pub enum ThemeSlot {
    Primary,
    PrimaryHover,
    PrimaryActive,
    Secondary,
    Surface,
    SurfaceElevated,
    Border,
    BorderStrong,
    Text,
    TextMuted,
    TextDisabled,
    Focus,
    Success,
    Error,
    Warning,
    Info,
    LightSurface,
    DarkSurface,
    /// No colour at all.
    Transparent,
    /// Pure white, whatever the theme.
    White,
}

} // verus!
