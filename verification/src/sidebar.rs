//! The navigation sidebar: whether it is open, toggled by its drawer
//! button, and the navbar that tops the window.
use vstd::prelude::*;

use crate::theme::Interaction;

verus! {

/// Whether the sidebar is open.
#[derive(Clone, Copy, Debug, PartialEq, Eq, Structural)]
pub struct SidebarState {
    pub open: bool,
}

impl Default for SidebarState {
    fn default() -> (s: Self)
        ensures
            s.open,
    {
        SidebarState { open: true }
    }
}

/// The number of presses among the interactions of a frame.
pub open spec fn presses(interactions: Seq<Interaction>) -> nat
    decreases interactions.len(),
{
    if interactions.len() == 0 {
        0
    } else {
        presses(interactions.drop_last()) + if interactions.last() == Interaction::Pressed {
            1nat
        } else {
            0nat
        }
    }
}

/// Each press of the drawer button flips the sidebar.
pub fn toggle_sidebar(state: &mut SidebarState, interactions: &Vec<Interaction>)
    ensures
        final(state).open == (if presses(interactions@) % 2 == 0 {
            old(state).open
        } else {
            !old(state).open
        }),
{
    let mut i: usize = 0;
    while i < interactions.len()
        invariant
            i <= interactions@.len(),
            state.open == (if presses(interactions@.take(i as int)) % 2 == 0 {
                old(state).open
            } else {
                !old(state).open
            }),
        decreases interactions@.len() - i,
    {
        assert(interactions@.take(i + 1).drop_last() == interactions@.take(i as int));
        assert(interactions@.take(i + 1).last() == interactions@[i as int]);
        match interactions[i] {
            Interaction::Pressed => {
                state.open = !state.open;
            },
            _ => {},
        }
        i += 1;
    }
    assert(interactions@.take(interactions@.len() as int) == interactions@);
}

/// The navbar that tops the window.
#[derive(Clone, Copy, Debug, PartialEq, Eq, Structural)]
pub struct Navbar {
    pub fixed: bool,
}

impl Navbar {
    /// A navbar in the flow of the page.
    pub fn new() -> (n: Self)
        ensures
            !n.fixed,
    {
        Navbar { fixed: false }
    }

    /// Pins the navbar to the top of the window, or not.
    pub fn fixed(self, fixed: bool) -> (n: Self)
        ensures
            n.fixed == fixed,
    {
        Navbar { fixed }
    }
}

} // verus!
