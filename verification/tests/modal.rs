use beverly::modal::{
    modal_close_button_pressed, modal_commands, modal_escape, modal_focus, Modal, ModalCommand,
    ModalDebounceState, ModalNotice, ModalReturnFocus,
};

fn mounted(open: bool) -> Vec<(u64, Modal)> {
    let modal = if open { Modal::new().open() } else { Modal::new() };
    vec![(7, modal)]
}

#[test]
fn close_command_wins_over_same_frame_reopen() {
    let mut modals = mounted(true);
    let mut debounce = ModalDebounceState::default();
    modal_commands(
        &mut modals,
        &vec![ModalCommand::Close(7), ModalCommand::Open(7)],
        0,
        &mut debounce,
    );
    assert!(!modals[0].1.open);
}

#[test]
fn close_then_immediate_reopen_is_debounced() {
    let mut modals = mounted(true);
    let mut debounce = ModalDebounceState::default();

    modal_commands(&mut modals, &vec![ModalCommand::Close(7)], 1_000, &mut debounce);
    assert!(!modals[0].1.open);

    // A reopen one frame later, inside the cooldown, is ignored.
    modal_commands(&mut modals, &vec![ModalCommand::Open(7)], 1_016, &mut debounce);
    assert!(!modals[0].1.open);

    // Once the cooldown has elapsed the modal reopens.
    modal_commands(&mut modals, &vec![ModalCommand::Open(7)], 1_216, &mut debounce);
    assert!(modals[0].1.open);
}

#[test]
fn toggle_reports_open_and_close() {
    let mut modals = mounted(false);
    let mut debounce = ModalDebounceState::default();
    let notices = modal_commands(&mut modals, &vec![ModalCommand::Toggle(7)], 0, &mut debounce);
    assert_eq!(notices.len(), 1);
    assert!(matches!(notices[0], ModalNotice::Opened(o) if o.entity == 7));
    let notices = modal_commands(&mut modals, &vec![ModalCommand::Toggle(7)], 10, &mut debounce);
    assert!(matches!(notices[0], ModalNotice::Closed(c) if c.entity == 7));
    assert!(!modals[0].1.open);
}

#[test]
fn commands_for_unknown_modals_are_ignored() {
    let mut modals = mounted(false);
    let mut debounce = ModalDebounceState::default();
    let notices = modal_commands(&mut modals, &vec![ModalCommand::Open(99)], 0, &mut debounce);
    assert!(notices.is_empty());
    assert!(!modals[0].1.open);
}

#[test]
fn mounted_modal_traps_only_while_open_and_restores_in_closing_frame() {
    let outside = 100;
    let close = 8;
    let mut modals = mounted(false);
    let mut debounce = ModalDebounceState::default();
    let mut memory = ModalReturnFocus::default();

    // Closed: no trap, focus stays where it is.
    assert_eq!(modal_focus(7, &modals[0].1, &mut memory, Some(outside), Some(close)), (false, None));

    // Opening traps focus and moves it to the close button.
    modal_commands(&mut modals, &vec![ModalCommand::Open(7)], 0, &mut debounce);
    assert_eq!(modal_focus(7, &modals[0].1, &mut memory, Some(outside), Some(close)), (true, Some(close)));

    // Reissuing Open or changing unrelated options keeps the return target.
    modal_commands(&mut modals, &vec![ModalCommand::Open(7)], 10, &mut debounce);
    modals[0].1.close_on_escape = false;
    assert_eq!(modal_focus(7, &modals[0].1, &mut memory, Some(close), Some(close)), (true, None));

    modal_commands(&mut modals, &vec![ModalCommand::Close(7)], 20, &mut debounce);
    assert_eq!(modal_focus(7, &modals[0].1, &mut memory, Some(close), Some(close)), (false, Some(outside)));
    assert_eq!(modal_focus(7, &modals[0].1, &mut memory, Some(outside), Some(close)), (false, None));

    // Direct state changes and the close button complete focus changes too.
    modals[0].1.open = true;
    assert_eq!(modal_focus(7, &modals[0].1, &mut memory, Some(outside), Some(close)), (true, Some(close)));
    modal_close_button_pressed(&mut modals[0].1);
    assert_eq!(modal_focus(7, &modals[0].1, &mut memory, Some(close), Some(close)), (false, Some(outside)));
}

#[test]
fn initially_open_modal_restores_and_closed_sibling_does_not_trap() {
    let outside = 100;
    let close = 9;
    let mut modals = vec![(6, Modal::new()), (7, Modal::new().open())];
    let mut closed_memory = ModalReturnFocus::default();
    let mut open_memory = ModalReturnFocus::default();
    let mut debounce = ModalDebounceState::default();

    assert_eq!(modal_focus(6, &modals[0].1, &mut closed_memory, Some(outside), None), (false, None));
    assert_eq!(modal_focus(7, &modals[1].1, &mut open_memory, Some(outside), Some(close)), (true, Some(close)));

    let commands = modal_escape(&modals, true);
    assert_eq!(commands, vec![ModalCommand::Close(7)]);
    modal_commands(&mut modals, &commands, 0, &mut debounce);
    assert_eq!(modal_focus(7, &modals[1].1, &mut open_memory, Some(close), Some(close)), (false, Some(outside)));
}

#[test]
fn spawn_helpers_initialize_closed_scopes_inactive() {
    let closed = beverly::modal::modal_layer(&Modal::new());
    assert!(!closed.displayed && !closed.backdrop_visible && !closed.focus_trap_active);
    let open = beverly::modal::modal_layer(&Modal::new().open());
    assert!(open.displayed && open.backdrop_visible && open.focus_trap_active);
}
