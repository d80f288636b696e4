//! Animation bookkeeping: the lifecycle of an animation track, which
//! animations reduced motion collapses, and the flags that record what an
//! animation frame made dirty. Interpolation and timing stay with the
//! renderer; this module decides what follows from them.
use vstd::prelude::*;

verus! {

/// Whether an animation only decorates or carries meaning.
#[derive(Clone, Copy, Debug, PartialEq, Eq, Structural)]
pub enum MotionClass {
    Decorative,
    Semantic,
}

/// Reduced motion collapses decorative animations to no duration and no
/// delay; meaningful ones keep their timing.
pub fn collapses_under_reduced_motion(reduced_motion: bool, class: MotionClass) -> (r: bool)
    ensures
        r == (reduced_motion && class == MotionClass::Decorative),
{
    reduced_motion && match class {
        MotionClass::Decorative => true,
        MotionClass::Semantic => false,
    }
}

/// Where an animation track is in its life.
#[derive(Clone, Copy, Debug, PartialEq, Eq, Structural)]
pub enum AnimationLifecycle {
    Pending,
    Running,
    Completed,
    Cancelled,
    Replaced,
}

/// A track is active while it waits, runs or was just given a new target.
pub open spec fn spec_is_active(state: AnimationLifecycle) -> bool {
    state == AnimationLifecycle::Pending || state == AnimationLifecycle::Running || state
        == AnimationLifecycle::Replaced
}

/// Whether a track in `state` is active.
pub fn is_active(state: AnimationLifecycle) -> (r: bool)
    ensures
        r == spec_is_active(state),
{
    match state {
        AnimationLifecycle::Pending | AnimationLifecycle::Running | AnimationLifecycle::Replaced => true,
        AnimationLifecycle::Completed | AnimationLifecycle::Cancelled => false,
    }
}

/// The state after a new target: a target equal to the current value
/// completes at once; an active track is replaced; an idle one waits for
/// its delay or runs.
pub open spec fn spec_after_set_target(
    state: AnimationLifecycle,
    same_as_current: bool,
    delay_positive: bool,
) -> AnimationLifecycle {
    if same_as_current {
        AnimationLifecycle::Completed
    } else if spec_is_active(state) {
        AnimationLifecycle::Replaced
    } else if delay_positive {
        AnimationLifecycle::Pending
    } else {
        AnimationLifecycle::Running
    }
}

/// The state of a track given a new target.
pub fn lifecycle_after_set_target(
    state: AnimationLifecycle,
    same_as_current: bool,
    delay_positive: bool,
) -> (r: AnimationLifecycle)
    ensures
        r == spec_after_set_target(state, same_as_current, delay_positive),
{
    if same_as_current {
        AnimationLifecycle::Completed
    } else if is_active(state) {
        AnimationLifecycle::Replaced
    } else if delay_positive {
        AnimationLifecycle::Pending
    } else {
        AnimationLifecycle::Running
    }
}

/// What the clock says about one tick of a track: whether its transition
/// has a delay, whether time advanced, whether the delay is still running
/// after the tick, whether the transition has no duration, and whether the
/// tick reached its end.
#[derive(Clone, Copy, Debug, PartialEq, Eq, Structural)]
pub struct TickFacts {
    pub delay_positive: bool,
    pub delta_positive: bool,
    pub still_delayed: bool,
    pub zero_duration: bool,
    pub finished: bool,
}

/// The state after a tick: finished and cancelled tracks stay so; a
/// replaced track starts over (waiting or running); without time passing
/// nothing else changes; then the track waits out its delay, completes at
/// once without a duration, or runs until it reaches its end.
pub open spec fn spec_after_tick(state: AnimationLifecycle, f: TickFacts) -> AnimationLifecycle {
    if state == AnimationLifecycle::Completed || state == AnimationLifecycle::Cancelled {
        state
    } else {
        let s = if state == AnimationLifecycle::Replaced {
            if f.delay_positive {
                AnimationLifecycle::Pending
            } else {
                AnimationLifecycle::Running
            }
        } else {
            state
        };
        if !f.delta_positive {
            s
        } else if f.still_delayed {
            AnimationLifecycle::Pending
        } else if f.zero_duration || f.finished {
            AnimationLifecycle::Completed
        } else {
            AnimationLifecycle::Running
        }
    }
}

/// The state of a track after one tick.
pub fn lifecycle_after_tick(state: AnimationLifecycle, facts: TickFacts) -> (r: AnimationLifecycle)
    ensures
        r == spec_after_tick(state, facts),
{
    match state {
        AnimationLifecycle::Completed | AnimationLifecycle::Cancelled => {
            return state;
        },
        _ => {},
    }
    let s = match state {
        AnimationLifecycle::Replaced => if facts.delay_positive {
            AnimationLifecycle::Pending
        } else {
            AnimationLifecycle::Running
        },
        _ => state,
    };
    if !facts.delta_positive {
        s
    } else if facts.still_delayed {
        AnimationLifecycle::Pending
    } else if facts.zero_duration || facts.finished {
        AnimationLifecycle::Completed
    } else {
        AnimationLifecycle::Running
    }
}

/// Finished and cancelled tracks never move again, and no tick leaves a
/// track marked as replaced.
pub proof fn lemma_tick_lifecycle(state: AnimationLifecycle, f: TickFacts)
    ensures
        !spec_is_active(state) ==> spec_after_tick(state, f) == state,
        spec_after_tick(state, f) != AnimationLifecycle::Replaced,
        spec_is_active(state) ==> spec_after_tick(state, f) != AnimationLifecycle::Cancelled,
{
}

/// Once cancelled, a track stays cancelled whatever the ticks bring.
pub proof fn lemma_cancelled_is_final(fs: Seq<TickFacts>)
    ensures
        fs.fold_left(AnimationLifecycle::Cancelled, |s: AnimationLifecycle, f: TickFacts| spec_after_tick(s, f))
            == AnimationLifecycle::Cancelled,
    decreases fs.len(),
{
    if fs.len() > 0 {
        lemma_cancelled_is_final(fs.drop_last());
    }
}

/// A kind of work an animation frame leaves for the renderer.
#[derive(Clone, Copy, Debug, PartialEq, Eq, Structural)]
pub enum UiAnimationDirtyKind {
    TransformDirty,
    PaintDirty,
    EffectDirty,
    LayoutDirty,
    TextLayoutDirty,
    GlyphDirty,
}

/// The bit position of each kind.
pub open spec fn dirty_shift(kind: UiAnimationDirtyKind) -> u32 {
    match kind {
        UiAnimationDirtyKind::TransformDirty => 0,
        UiAnimationDirtyKind::PaintDirty => 1,
        UiAnimationDirtyKind::EffectDirty => 2,
        UiAnimationDirtyKind::LayoutDirty => 3,
        UiAnimationDirtyKind::TextLayoutDirty => 4,
        UiAnimationDirtyKind::GlyphDirty => 5,
    }
}

/// The bit of each kind.
pub open spec fn dirty_bit(kind: UiAnimationDirtyKind) -> u32 {
    1u32 << dirty_shift(kind)
}

impl UiAnimationDirtyKind {
    /// The bit of this kind.
    pub fn bit(self) -> (b: u32)
        ensures
            b == dirty_bit(self),
    {
        match self {
            UiAnimationDirtyKind::TransformDirty => 1u32 << 0u32,
            UiAnimationDirtyKind::PaintDirty => 1u32 << 1u32,
            UiAnimationDirtyKind::EffectDirty => 1u32 << 2u32,
            UiAnimationDirtyKind::LayoutDirty => 1u32 << 3u32,
            UiAnimationDirtyKind::TextLayoutDirty => 1u32 << 4u32,
            UiAnimationDirtyKind::GlyphDirty => 1u32 << 5u32,
        }
    }
}

/// The kinds of work one entity's animations left this frame, one bit
/// each.
#[derive(Clone, Copy, Debug, PartialEq, Eq, Structural)]
pub struct UiAnimationDirtyFlags(pub u32);

/// Whether the flags hold `kind`.
pub open spec fn flags_hold(bits: u32, kind: UiAnimationDirtyKind) -> bool {
    bits & dirty_bit(kind) != 0
}

impl Default for UiAnimationDirtyFlags {
    fn default() -> (f: Self)
        ensures
            f.0 == 0,
    {
        UiAnimationDirtyFlags(0)
    }
}

impl UiAnimationDirtyFlags {
    /// Forgets every kind.
    pub fn clear(&mut self)
        ensures
            final(self).0 == 0,
    {
        self.0 = 0;
    }

    /// Records `kind`.
    pub fn mark(&mut self, kind: UiAnimationDirtyKind)
        ensures
            final(self).0 == old(self).0 | dirty_bit(kind),
    {
        self.0 = self.0 | kind.bit();
    }

    /// Whether `kind` was recorded.
    pub fn contains(&self, kind: UiAnimationDirtyKind) -> (r: bool)
        ensures
            r == flags_hold(self.0, kind),
    {
        self.0 & kind.bit() != 0
    }
}

/// Marking a kind records it and leaves every other kind as it was;
/// cleared flags hold nothing.
pub proof fn lemma_mark_and_clear(bits: u32, kind: UiAnimationDirtyKind, other: UiAnimationDirtyKind)
    ensures
        flags_hold(bits | dirty_bit(kind), kind),
        other != kind ==> (flags_hold(bits | dirty_bit(kind), other) == flags_hold(bits, other)),
        !flags_hold(0u32, other),
{
    let a = dirty_shift(kind);
    let b = dirty_shift(other);
    assert(a < 32 && b < 32);
    assert((bits | (1u32 << a)) & (1u32 << a) != 0) by (bit_vector)
        requires
            a < 32,
    ;
    if other != kind {
        assert(a != b);
        assert(((bits | (1u32 << a)) & (1u32 << b)) == (bits & (1u32 << b))) by (bit_vector)
            requires
                a < 32,
                b < 32,
                a != b,
        ;
    }
    assert((0u32 & (1u32 << b)) == 0) by (bit_vector);
}

/// Where an element's enter/exit motion is.
#[derive(Clone, Copy, Debug, PartialEq, Eq, Structural)]
pub enum UiMotionPhase {
    Entering,
    Idle,
    Exiting,
}

/// A new motion enters if it has an enter animation, else rests.
pub fn initial_motion_phase(has_enter: bool) -> (p: UiMotionPhase)
    ensures
        p == (if has_enter {
            UiMotionPhase::Entering
        } else {
            UiMotionPhase::Idle
        }),
{
    if has_enter {
        UiMotionPhase::Entering
    } else {
        UiMotionPhase::Idle
    }
}

/// Giving a resting motion an enter animation starts it entering.
pub fn phase_with_enter(phase: UiMotionPhase) -> (p: UiMotionPhase)
    ensures
        p == (if phase == UiMotionPhase::Idle {
            UiMotionPhase::Entering
        } else {
            phase
        }),
{
    match phase {
        UiMotionPhase::Idle => UiMotionPhase::Entering,
        _ => phase,
    }
}

/// What one frame does to a motion: its next phase, whether its clock
/// restarts, whether it animates this frame, and whether the element goes
/// away.
#[derive(Clone, Copy, Debug, PartialEq, Eq, Structural)]
pub struct MotionTick {
    pub phase: UiMotionPhase,
    pub restart_clock: bool,
    pub animate: bool,
    pub despawn: bool,
}

/// One frame of a motion. A phase without an animation does nothing, but
/// an exit without one removes the element at once. Otherwise the motion
/// animates; a finished entry rests and a finished exit removes the
/// element; a resting motion asked to leave starts its exit.
pub open spec fn spec_motion_tick(
    phase: UiMotionPhase,
    has_enter: bool,
    has_exit: bool,
    finished: bool,
    exit_requested: bool,
) -> MotionTick {
    let has_spec = match phase {
        UiMotionPhase::Entering => has_enter,
        UiMotionPhase::Exiting => has_exit,
        UiMotionPhase::Idle => false,
    };
    if !has_spec {
        MotionTick {
            phase,
            restart_clock: false,
            animate: false,
            despawn: phase == UiMotionPhase::Exiting,
        }
    } else {
        let entered = finished && phase == UiMotionPhase::Entering;
        let p1 = if entered {
            UiMotionPhase::Idle
        } else {
            phase
        };
        let despawn = finished && phase == UiMotionPhase::Exiting;
        if exit_requested && p1 == UiMotionPhase::Idle {
            MotionTick { phase: UiMotionPhase::Exiting, restart_clock: true, animate: true, despawn }
        } else {
            MotionTick { phase: p1, restart_clock: entered, animate: true, despawn }
        }
    }
}

/// One frame of an element's motion; `finished` says whether the frame
/// reaches the end of the current animation.
pub fn motion_tick(
    phase: UiMotionPhase,
    has_enter: bool,
    has_exit: bool,
    finished: bool,
    exit_requested: bool,
) -> (t: MotionTick)
    ensures
        t == spec_motion_tick(phase, has_enter, has_exit, finished, exit_requested),
{
    let has_spec = match phase {
        UiMotionPhase::Entering => has_enter,
        UiMotionPhase::Exiting => has_exit,
        UiMotionPhase::Idle => false,
    };
    let exiting = match phase {
        UiMotionPhase::Exiting => true,
        _ => false,
    };
    if !has_spec {
        return MotionTick { phase, restart_clock: false, animate: false, despawn: exiting };
    }
    let mut next = phase;
    let mut restart = false;
    let mut despawn = false;
    if finished {
        match phase {
            UiMotionPhase::Entering => {
                next = UiMotionPhase::Idle;
                restart = true;
            },
            UiMotionPhase::Exiting => {
                despawn = true;
            },
            UiMotionPhase::Idle => {},
        }
    }
    let resting = match next {
        UiMotionPhase::Idle => true,
        _ => false,
    };
    if exit_requested && resting {
        next = UiMotionPhase::Exiting;
        restart = true;
    }
    MotionTick { phase: next, restart_clock: restart, animate: true, despawn }
}

/// A request to leave starts the exit, restarting the clock unless the
/// motion is already leaving; the request stays only while there is an
/// exit animation to play.
pub fn begin_exit(phase: UiMotionPhase, has_exit: bool) -> (r: (UiMotionPhase, bool, bool))
    ensures
        r == (UiMotionPhase::Exiting, phase != UiMotionPhase::Exiting, has_exit),
{
    let restart = match phase {
        UiMotionPhase::Exiting => false,
        _ => true,
    };
    (UiMotionPhase::Exiting, restart, has_exit)
}

/// A leaving element never comes back: an exiting motion stays exiting
/// until it is removed.
pub proof fn lemma_exit_is_final(
    has_enter: bool,
    has_exit: bool,
    finished: bool,
    exit_requested: bool,
)
    ensures
        spec_motion_tick(UiMotionPhase::Exiting, has_enter, has_exit, finished, exit_requested).phase
            == UiMotionPhase::Exiting,
        spec_motion_tick(UiMotionPhase::Exiting, has_enter, has_exit, finished, exit_requested).despawn
            == (!has_exit || finished),
{
}

} // verus!
