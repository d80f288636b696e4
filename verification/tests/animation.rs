use beverly::animation::{
    begin_exit, collapses_under_reduced_motion, initial_motion_phase, is_active,
    lifecycle_after_set_target, lifecycle_after_tick, motion_tick, phase_with_enter,
    AnimationLifecycle, MotionClass, TickFacts, UiAnimationDirtyFlags, UiAnimationDirtyKind,
    UiMotionPhase,
};

#[test]
fn restart_enter_rearms_completed_motion() {
    // A motion with an enter animation restarts in the entering phase.
    let phase = initial_motion_phase(true);
    assert_eq!(phase, UiMotionPhase::Entering);
    assert_eq!(initial_motion_phase(false), UiMotionPhase::Idle);
}

#[test]
fn dirty_flags_mark_contains_and_clear() {
    let mut flags = UiAnimationDirtyFlags::default();
    assert!(!flags.contains(UiAnimationDirtyKind::PaintDirty));
    flags.mark(UiAnimationDirtyKind::PaintDirty);
    flags.mark(UiAnimationDirtyKind::GlyphDirty);
    assert!(flags.contains(UiAnimationDirtyKind::PaintDirty));
    assert!(flags.contains(UiAnimationDirtyKind::GlyphDirty));
    assert!(!flags.contains(UiAnimationDirtyKind::LayoutDirty));
    assert_eq!(flags.0, 0b100010);
    flags.clear();
    assert!(!flags.contains(UiAnimationDirtyKind::PaintDirty));
    assert_eq!(UiAnimationDirtyKind::TextLayoutDirty.bit(), 16);
}

#[test]
fn lifecycle_follows_targets_and_ticks() {
    let running = lifecycle_after_set_target(AnimationLifecycle::Completed, false, false);
    assert_eq!(running, AnimationLifecycle::Running);
    assert_eq!(
        lifecycle_after_set_target(AnimationLifecycle::Completed, false, true),
        AnimationLifecycle::Pending
    );
    assert_eq!(
        lifecycle_after_set_target(running, false, false),
        AnimationLifecycle::Replaced
    );
    assert_eq!(
        lifecycle_after_set_target(running, true, false),
        AnimationLifecycle::Completed
    );
    let facts = TickFacts {
        delay_positive: false,
        delta_positive: true,
        still_delayed: false,
        zero_duration: false,
        finished: false,
    };
    assert_eq!(lifecycle_after_tick(AnimationLifecycle::Replaced, facts), AnimationLifecycle::Running);
    assert_eq!(
        lifecycle_after_tick(AnimationLifecycle::Running, TickFacts { finished: true, ..facts }),
        AnimationLifecycle::Completed
    );
    assert_eq!(
        lifecycle_after_tick(AnimationLifecycle::Running, TickFacts { still_delayed: true, ..facts }),
        AnimationLifecycle::Pending
    );
    assert_eq!(
        lifecycle_after_tick(AnimationLifecycle::Cancelled, TickFacts { finished: true, ..facts }),
        AnimationLifecycle::Cancelled
    );
    assert_eq!(
        lifecycle_after_tick(
            AnimationLifecycle::Replaced,
            TickFacts { delay_positive: true, delta_positive: false, ..facts }
        ),
        AnimationLifecycle::Pending
    );
    assert!(is_active(AnimationLifecycle::Replaced));
    assert!(!is_active(AnimationLifecycle::Cancelled));
}

#[test]
fn reduced_motion_collapses_only_decorative_motion() {
    assert!(collapses_under_reduced_motion(true, MotionClass::Decorative));
    assert!(!collapses_under_reduced_motion(true, MotionClass::Semantic));
    assert!(!collapses_under_reduced_motion(false, MotionClass::Decorative));
}

#[test]
fn motion_phases_enter_rest_and_exit() {
    assert_eq!(phase_with_enter(UiMotionPhase::Idle), UiMotionPhase::Entering);
    assert_eq!(phase_with_enter(UiMotionPhase::Exiting), UiMotionPhase::Exiting);

    let t = motion_tick(UiMotionPhase::Entering, true, true, true, false);
    assert_eq!(t.phase, UiMotionPhase::Idle);
    assert!(t.restart_clock && t.animate && !t.despawn);

    let t = motion_tick(UiMotionPhase::Entering, true, true, true, true);
    assert_eq!(t.phase, UiMotionPhase::Exiting);

    let t = motion_tick(UiMotionPhase::Exiting, true, false, false, true);
    assert!(t.despawn && !t.animate);

    let t = motion_tick(UiMotionPhase::Exiting, true, true, true, false);
    assert!(t.despawn && t.animate);

    assert_eq!(begin_exit(UiMotionPhase::Idle, true), (UiMotionPhase::Exiting, true, true));
    assert_eq!(begin_exit(UiMotionPhase::Exiting, false), (UiMotionPhase::Exiting, false, false));
}
