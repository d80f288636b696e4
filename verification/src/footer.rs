//! The footer: whether it is pinned to the bottom of the window, and its
//! three sections.
use vstd::prelude::*;

verus! {

/// The footer root.
#[derive(Clone, Copy, Debug, PartialEq, Eq, Structural)]
pub struct Footer {
    pub fixed: bool,
}

impl Footer {
    /// A footer in the flow of the page.
    pub fn new() -> (f: Self)
        ensures
            !f.fixed,
    {
        Footer { fixed: false }
    }

    /// Pins the footer to the bottom of the window, or not.
    pub fn fixed(self, fixed: bool) -> (f: Self)
        ensures
            f.fixed == fixed,
    {
        Footer { fixed }
    }
}

/// A section of the footer.
#[derive(Clone, Copy, Debug, PartialEq, Eq, Structural)]
pub enum FooterSection {
    Left,
    Center,
    Right,
}

/// Where the footer sits.
#[derive(Clone, Copy, Debug, PartialEq, Eq, Structural)]
pub enum FooterPlacement {
    /// Out of the flow, pinned to the bottom edge.
    PinnedToBottom,
    /// In the flow of the page.
    InFlow,
}

/// Where a footer sits.
pub fn footer_placement(footer: &Footer) -> (p: FooterPlacement)
    ensures
        p == (if footer.fixed {
            FooterPlacement::PinnedToBottom
        } else {
            FooterPlacement::InFlow
        }),
{
    if footer.fixed {
        FooterPlacement::PinnedToBottom
    } else {
        FooterPlacement::InFlow
    }
}

} // verus!
