//! The loading screen: how far the start-up assets are, and when the
//! application may leave the loading state.
use vstd::prelude::*;

verus! {

/// Whether the application is still loading.
#[derive(Clone, Copy, Debug, PartialEq, Eq, Structural)]
pub enum AppState {
    Loading,
    Ready,
}

impl Default for AppState {
    fn default() -> (s: Self)
        ensures
            s == AppState::Loading,
    {
        AppState::Loading
    }
}

/// How many of the start-up assets have loaded.
#[derive(Clone, Copy, Debug, PartialEq, Eq, Structural)]
pub struct LoadingProgress {
    pub current: usize,
    pub total: usize,
}

impl Default for LoadingProgress {
    fn default() -> (p: Self)
        ensures
            p == (LoadingProgress { current: 0, total: 0 }),
    {
        LoadingProgress { current: 0, total: 0 }
    }
}

/// One check of the start-up assets (the font and the logo): the progress
/// counts the loaded ones out of two, and the application is ready once
/// both have loaded and the minimum time on the loading screen has passed.
pub fn loading_check(font_loaded: bool, logo_loaded: bool, delay_elapsed: bool) -> (r: (
    LoadingProgress,
    bool,
))
    ensures
        r.0.total == 2,
        r.0.current == (if font_loaded {
            1usize
        } else {
            0usize
        }) + (if logo_loaded {
            1usize
        } else {
            0usize
        }),
        r.1 == (font_loaded && logo_loaded && delay_elapsed),
{
    let font: usize = if font_loaded {
        1
    } else {
        0
    };
    let logo: usize = if logo_loaded {
        1
    } else {
        0
    };
    (LoadingProgress { current: font + logo, total: 2 }, font_loaded && logo_loaded && delay_elapsed)
}

} // verus!
