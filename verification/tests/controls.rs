use beverly::loading::{loading_check, AppState};
use beverly::alert::{dismiss_pressed, Alert, AlertVariant};
use beverly::link::{link_pressed, link_text_slot, Link, LinkClicked};
use beverly::slider::{slider_cursor, slider_pointer_step, SliderCursor, SliderInteraction, SliderPointer};
use beverly::theme::{Interaction, ThemeSlot};
use std::time::Duration;

fn pointer() -> SliderPointer {
    SliderPointer {
        just_pressed: false,
        just_released: false,
        pressed: false,
        disabled: false,
        parts_found: true,
        over_track: false,
        over_thumb: false,
        has_track_position: true,
    }
}

#[test]
fn slider_grab_drag_release() {
    let mut s = SliderInteraction::default();
    let phases = slider_pointer_step(&mut s, SliderPointer { just_pressed: true, pressed: true, over_thumb: true, ..pointer() });
    assert!(s.dragging && s.hovered);
    assert!(phases.follow_drag && !phases.jump_to_pointer);

    let phases = slider_pointer_step(&mut s, SliderPointer { pressed: true, ..pointer() });
    assert!(phases.follow_drag && s.hovered);

    let phases = slider_pointer_step(&mut s, SliderPointer { just_released: true, ..pointer() });
    assert!(!s.dragging && phases.commit && !phases.follow_drag);

    let phases = slider_pointer_step(&mut s, SliderPointer { just_pressed: true, pressed: true, over_track: true, ..pointer() });
    assert!(phases.jump_to_pointer && !s.dragging);

    let phases = slider_pointer_step(&mut s, SliderPointer { disabled: true, over_thumb: true, ..pointer() });
    assert!(!s.hovered && !phases.commit);
}

#[test]
fn slider_cursor_prefers_dragging() {
    let idle = SliderInteraction { hovered: false, dragging: false };
    let hover = SliderInteraction { hovered: true, dragging: false };
    let drag = SliderInteraction { hovered: true, dragging: true };
    assert_eq!(slider_cursor(&vec![(false, hover), (false, drag)]), SliderCursor::Grabbing);
    assert_eq!(slider_cursor(&vec![(false, idle), (false, hover)]), SliderCursor::Grab);
    assert_eq!(slider_cursor(&vec![(true, drag)]), SliderCursor::Default);
}

#[test]
fn links_click_only_while_enabled() {
    let link = Link::new("Docs".to_string()).icon("book".to_string());
    assert_eq!(link_pressed(3, &link, Interaction::Pressed), Some(LinkClicked { entity: 3 }));
    assert_eq!(link_pressed(3, &link, Interaction::Hovered), None);
    let off = Link::new("Docs".to_string()).disabled(true);
    assert_eq!(link_pressed(3, &off, Interaction::Pressed), None);
    assert_eq!(link_text_slot(&off, Some(Interaction::Hovered)), ThemeSlot::TextDisabled);
    assert_eq!(link_text_slot(&link, Some(Interaction::Hovered)), ThemeSlot::PrimaryHover);
    assert_eq!(link_text_slot(&link, None), ThemeSlot::Primary);
}

#[test]
fn alerts_carry_kind_title_and_duration() {
    let alert = Alert::warning("Disk almost full".to_string())
        .title("Storage".to_string())
        .dismissible(false)
        .duration(Duration::from_secs(5));
    assert_eq!(alert.variant, AlertVariant::Warning);
    assert_eq!(alert.title.as_deref(), Some("Storage"));
    assert!(!alert.dismissible);
    assert_eq!(alert.duration, Some(Duration::from_secs(5)));
    assert_eq!(AlertVariant::Status.feather_name(), "wifi");
    assert_eq!(AlertVariant::Error.label(), "Error");
    assert_eq!(AlertVariant::Status.accent_slot(), ThemeSlot::Primary);
    assert_eq!(AlertVariant::Status.background_slot(), ThemeSlot::Secondary);
    assert!(dismiss_pressed(Interaction::Pressed));
    assert!(!dismiss_pressed(Interaction::Hovered));
}

#[test]
fn loading_waits_for_both_assets_and_the_delay() {
    assert_eq!(AppState::default(), AppState::Loading);
    let (progress, ready) = loading_check(true, false, true);
    assert_eq!((progress.current, progress.total), (1, 2));
    assert!(!ready);
    assert!(!loading_check(true, true, false).1);
    assert!(loading_check(true, true, true).1);
}
