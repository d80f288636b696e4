//! Sliders: the pointer state machine of hovering and dragging the thumb,
//! which phases of a frame move the value, and the cursor the window
//! shows. The value arithmetic itself stays with the renderer.
use vstd::prelude::*;

verus! {

/// Whether the pointer hovers a slider's thumb and whether it drags it.
#[derive(Clone, Copy, Debug, PartialEq, Eq, Structural)]
pub struct SliderInteraction {
    pub hovered: bool,
    pub dragging: bool,
}

impl Default for SliderInteraction {
    fn default() -> (s: Self)
        ensures
            s == (SliderInteraction { hovered: false, dragging: false }),
    {
        SliderInteraction { hovered: false, dragging: false }
    }
}

/// The pointer in one frame: the left button's edges and level, whether
/// the slider is disabled, whether its track and thumb were found, where
/// the pointer is, and whether it has a position along the track.
#[derive(Clone, Copy, Debug, PartialEq, Eq, Structural)]
pub struct SliderPointer {
    pub just_pressed: bool,
    pub just_released: bool,
    pub pressed: bool,
    pub disabled: bool,
    pub parts_found: bool,
    pub over_track: bool,
    pub over_thumb: bool,
    pub has_track_position: bool,
}

/// The phases of a frame that set the value: a press on the track jumps
/// to the pointer, a drag follows it, a release commits the value.
#[derive(Clone, Copy, Debug, PartialEq, Eq, Structural)]
pub struct SliderPhases {
    pub jump_to_pointer: bool,
    pub follow_drag: bool,
    pub commit: bool,
}

/// No phase runs.
pub open spec fn no_phases() -> SliderPhases {
    SliderPhases { jump_to_pointer: false, follow_drag: false, commit: false }
}

/// One frame of a slider's pointer handling. A released button ends a
/// drag; a disabled slider, or one whose parts are missing, is not
/// hovered and does nothing. Otherwise the thumb is hovered under the
/// pointer or while dragged; a press on the thumb starts a drag and one on
/// the track jumps there; a drag follows the pointer; a release commits.
/// Without a position along the track, a jump or a drag ends the frame's
/// handling.
pub open spec fn spec_slider_pointer(s: SliderInteraction, p: SliderPointer) -> (
    SliderInteraction,
    SliderPhases,
) {
    let dragging0 = if p.just_released || !p.pressed {
        false
    } else {
        s.dragging
    };
    if p.disabled || !p.parts_found {
        (SliderInteraction { hovered: false, dragging: dragging0 }, no_phases())
    } else {
        let hovered = p.over_thumb || dragging0;
        let grab = p.just_pressed && p.over_thumb;
        let jump = p.just_pressed && !p.over_thumb && p.over_track;
        let dragging1 = dragging0 || grab;
        let after = SliderInteraction { hovered, dragging: dragging1 };
        if jump && !p.has_track_position {
            (after, no_phases())
        } else {
            let follow = dragging1 && p.pressed;
            if follow && !p.has_track_position {
                (after, SliderPhases { jump_to_pointer: jump, follow_drag: false, commit: false })
            } else {
                (after, SliderPhases { jump_to_pointer: jump, follow_drag: follow, commit: p.just_released })
            }
        }
    }
}

/// Applies one frame of pointer input to a slider.
pub fn slider_pointer_step(interaction: &mut SliderInteraction, p: SliderPointer) -> (phases:
    SliderPhases)
    ensures
        (*final(interaction), phases) == spec_slider_pointer(*old(interaction), p),
{
    if p.just_released || !p.pressed {
        interaction.dragging = false;
    }
    if p.disabled || !p.parts_found {
        interaction.hovered = false;
        return SliderPhases { jump_to_pointer: false, follow_drag: false, commit: false };
    }
    interaction.hovered = p.over_thumb || interaction.dragging;
    let mut jump = false;
    if p.just_pressed && p.over_thumb {
        interaction.dragging = true;
    } else if p.just_pressed && p.over_track {
        if !p.has_track_position {
            return SliderPhases { jump_to_pointer: false, follow_drag: false, commit: false };
        }
        jump = true;
    }
    let mut follow = false;
    if interaction.dragging && p.pressed {
        if !p.has_track_position {
            return SliderPhases { jump_to_pointer: jump, follow_drag: false, commit: false };
        }
        follow = true;
    }
    SliderPhases { jump_to_pointer: jump, follow_drag: follow, commit: p.just_released }
}

/// A released or unpressed button never leaves a slider dragging, and a
/// disabled slider is never hovered nor moved.
pub proof fn lemma_release_ends_drag(s: SliderInteraction, p: SliderPointer)
    ensures
        !p.pressed && !p.just_pressed ==> !spec_slider_pointer(s, p).0.dragging,
        p.just_released && !p.just_pressed ==> !spec_slider_pointer(s, p).0.dragging,
        p.disabled ==> !spec_slider_pointer(s, p).0.hovered && spec_slider_pointer(s, p).1
            == no_phases(),
{
}

/// The cursor the window shows over sliders.
#[derive(Clone, Copy, Debug, PartialEq, Eq, Structural)]
pub enum SliderCursor {
    Default,
    Grab,
    Grabbing,
}

/// Grabbing while an enabled slider is dragged, a grab hand while one is
/// hovered, else the default arrow.
pub open spec fn spec_slider_cursor(sliders: Seq<(bool, SliderInteraction)>) -> SliderCursor {
    if exists|i: int| 0 <= i < sliders.len() && !sliders[i].0 && (#[trigger] sliders[i]).1.dragging {
        SliderCursor::Grabbing
    } else if exists|i: int| 0 <= i < sliders.len() && !sliders[i].0 && (#[trigger] sliders[i]).1.hovered {
        SliderCursor::Grab
    } else {
        SliderCursor::Default
    }
}

/// The cursor for the window, given each slider's disabled flag and
/// pointer state.
pub fn slider_cursor(sliders: &Vec<(bool, SliderInteraction)>) -> (c: SliderCursor)
    ensures
        c == spec_slider_cursor(sliders@),
{
    let mut hovering = false;
    let mut i: usize = 0;
    while i < sliders.len()
        invariant
            i <= sliders@.len(),
            forall|j: int| 0 <= j < i ==> !(!sliders@[j].0 && (#[trigger] sliders@[j]).1.dragging),
            hovering == exists|j: int| 0 <= j < i && !sliders@[j].0 && (#[trigger] sliders@[j]).1.hovered,
        decreases sliders@.len() - i,
    {
        let (disabled, interaction) = sliders[i];
        if !disabled {
            if interaction.dragging {
                assert(!sliders@[i as int].0 && sliders@[i as int].1.dragging);
                return SliderCursor::Grabbing;
            }
            if interaction.hovered {
                assert(!sliders@[i as int].0 && sliders@[i as int].1.hovered);
                hovering = true;
            }
        }
        i += 1;
    }
    if hovering {
        SliderCursor::Grab
    } else {
        SliderCursor::Default
    }
}

} // verus!
