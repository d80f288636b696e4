//! Containers: how each axis of a container treats overflowing content.
use vstd::prelude::*;

verus! {

/// What an axis does with content that overflows.
#[derive(Clone, Copy, Debug, PartialEq, Eq, Structural)]
pub enum ScrollMode {
    Clip,
    Scroll,
}

/// An axis of a container.
#[derive(Clone, Copy, Debug, PartialEq, Eq, Structural)]
pub enum ScrollAxis {
    X,
    Y,
    Z,
}

/// The overflow behaviour of each axis of a container.
#[derive(Clone, Copy, Debug, PartialEq, Eq, Structural)]
pub struct ContainerScroll {
    pub x: ScrollMode,
    pub y: ScrollMode,
    pub z: ScrollMode,
}

/// Every axis clips.
pub open spec fn all_clip() -> ContainerScroll {
    ContainerScroll { x: ScrollMode::Clip, y: ScrollMode::Clip, z: ScrollMode::Clip }
}

/// `s` with the axis `axis` set to `mode`.
pub open spec fn spec_with_axis(s: ContainerScroll, axis: ScrollAxis, mode: ScrollMode) -> ContainerScroll {
    match axis {
        ScrollAxis::X => ContainerScroll { x: mode, ..s },
        ScrollAxis::Y => ContainerScroll { y: mode, ..s },
        ScrollAxis::Z => ContainerScroll { z: mode, ..s },
    }
}

impl Default for ContainerScroll {
    fn default() -> (s: Self)
        ensures
            s == all_clip(),
    {
        ContainerScroll { x: ScrollMode::Clip, y: ScrollMode::Clip, z: ScrollMode::Clip }
    }
}

impl ContainerScroll {
    /// Clips on every axis.
    pub fn none() -> (s: Self)
        ensures
            s == all_clip(),
    {
        Self::default()
    }

    /// Scrolls horizontally only.
    pub fn x() -> (s: Self)
        ensures
            s == spec_with_axis(all_clip(), ScrollAxis::X, ScrollMode::Scroll),
    {
        Self::default().with_axis(ScrollAxis::X, ScrollMode::Scroll)
    }

    /// Scrolls vertically only.
    pub fn y() -> (s: Self)
        ensures
            s == spec_with_axis(all_clip(), ScrollAxis::Y, ScrollMode::Scroll),
    {
        Self::default().with_axis(ScrollAxis::Y, ScrollMode::Scroll)
    }

    /// Scrolls both ways in the plane.
    pub fn both() -> (s: Self)
        ensures
            s == (ContainerScroll { x: ScrollMode::Scroll, y: ScrollMode::Scroll, z: ScrollMode::Clip }),
    {
        Self::default().with_axis(ScrollAxis::X, ScrollMode::Scroll).with_axis(
            ScrollAxis::Y,
            ScrollMode::Scroll,
        )
    }

    /// Sets one axis.
    pub fn with_axis(self, axis: ScrollAxis, mode: ScrollMode) -> (s: Self)
        ensures
            s == spec_with_axis(self, axis, mode),
    {
        let mut s = self;
        match axis {
            ScrollAxis::X => s.x = mode,
            ScrollAxis::Y => s.y = mode,
            ScrollAxis::Z => s.z = mode,
        }
        s
    }

    /// Sets the horizontal axis.
    pub fn with_x(self, mode: ScrollMode) -> (s: Self)
        ensures
            s == spec_with_axis(self, ScrollAxis::X, mode),
    {
        self.with_axis(ScrollAxis::X, mode)
    }

    /// Sets the vertical axis.
    pub fn with_y(self, mode: ScrollMode) -> (s: Self)
        ensures
            s == spec_with_axis(self, ScrollAxis::Y, mode),
    {
        self.with_axis(ScrollAxis::Y, mode)
    }

    /// Sets the depth axis.
    pub fn with_z(self, mode: ScrollMode) -> (s: Self)
        ensures
            s == spec_with_axis(self, ScrollAxis::Z, mode),
    {
        self.with_axis(ScrollAxis::Z, mode)
    }

    /// Whether the container scrolls in the plane, and so keeps a scroll
    /// position.
    pub fn is_scrollable_xy(self) -> (r: bool)
        ensures
            r == (self.x == ScrollMode::Scroll || self.y == ScrollMode::Scroll),
    {
        let sx = match self.x {
            ScrollMode::Scroll => true,
            ScrollMode::Clip => false,
        };
        let sy = match self.y {
            ScrollMode::Scroll => true,
            ScrollMode::Clip => false,
        };
        sx || sy
    }
}

/// Setting an axis changes that axis only, and setting it again overrides
/// the first setting.
pub proof fn lemma_with_axis(s: ContainerScroll, axis: ScrollAxis, m1: ScrollMode, m2: ScrollMode)
    ensures
        spec_with_axis(spec_with_axis(s, axis, m1), axis, m2) == spec_with_axis(s, axis, m2),
        axis != ScrollAxis::X ==> spec_with_axis(s, axis, m1).x == s.x,
        axis != ScrollAxis::Y ==> spec_with_axis(s, axis, m1).y == s.y,
        axis != ScrollAxis::Z ==> spec_with_axis(s, axis, m1).z == s.z,
{
}

} // verus!
