use beverly::button_group::{
    button_group_pressed, ButtonGroup, ButtonGroupButton, ButtonGroupOrientation,
    ButtonGroupSelection,
};
use beverly::dropdown::{
    dropdown_click_outside, dropdown_keyboard_navigation, Dropdown, DropdownConfig, DropdownKey,
    DropdownKeyEvent,
};
use beverly::input::{text_input_keyboard, TextInput, TextInputConfig, TextInputKey, TextInputKeyEvent};
use beverly::pagination::{pagination_button_pressed, PaginationAction, PaginationState};
use beverly::tabs::roving_next;

#[test]
fn multiple_selection_press_twice_restores() {
    let group = ButtonGroup {
        orientation: ButtonGroupOrientation::Vertical,
        selection: ButtonGroupSelection::Multiple,
    };
    let mut items = vec![
        (1, ButtonGroupButton::new("a".to_string(), "A".to_string()).selected(true).into_item(9)),
        (2, ButtonGroupButton::new("b".to_string(), "B".to_string()).into_item(9)),
    ];
    button_group_pressed(&group, 9, &mut items, 1);
    assert!(items[0].1.selected && items[1].1.selected);
    button_group_pressed(&group, 9, &mut items, 1);
    assert!(items[0].1.selected && !items[1].1.selected);
}

#[test]
fn roving_forward_then_back_returns() {
    for len in 2..6usize {
        for p in 0..len {
            assert_eq!(roving_next(roving_next(p, len, true), len, false), p);
        }
    }
    assert_eq!(roving_next(2, 3, true), 0);
}

#[test]
fn closing_a_dropdown_highlights_its_selection() {
    let config = DropdownConfig::new("Pick".to_string())
        .option("A".to_string(), "a".to_string())
        .option("B".to_string(), "b".to_string())
        .option("C".to_string(), "c".to_string())
        .selected(2);
    let (dropdown, mut state, _) = Dropdown::from_config(config);
    let down = DropdownKeyEvent { pressed: true, key: DropdownKey::ArrowDown };
    let escape = DropdownKeyEvent { pressed: true, key: DropdownKey::Escape };
    dropdown_keyboard_navigation(&dropdown, &mut state, 1, &vec![down, down]);
    assert!(state.open);
    assert_eq!(state.highlighted, Some(0));
    dropdown_keyboard_navigation(&dropdown, &mut state, 1, &vec![escape]);
    assert!(!state.open);
    assert_eq!(state.highlighted, Some(2));
    dropdown_keyboard_navigation(&dropdown, &mut state, 1, &vec![down]);
    assert!(dropdown_click_outside(&mut state, 1).is_some());
    assert_eq!(state.highlighted, state.selected);
}

#[test]
fn next_then_previous_returns_to_the_page() {
    let mut state = PaginationState::new(20, 5);
    pagination_button_pressed(&mut state, 0, PaginationAction::Page(3), false);
    pagination_button_pressed(&mut state, 0, PaginationAction::Next, false);
    pagination_button_pressed(&mut state, 0, PaginationAction::Previous, false);
    assert_eq!(state.current_page, 3);
}

#[test]
fn backspace_undoes_typing_and_cursor_stays_inside() {
    let mut input = TextInput::from_config(
        TextInputConfig::new("Name".to_string()).initial_value("héllo".to_string()),
    );
    let press = |key, text: Option<&str>| TextInputKeyEvent {
        pressed: true,
        key,
        text: text.map(|t| t.to_string()),
    };
    text_input_keyboard(
        &mut input,
        1,
        &vec![press(TextInputKey::Home, None), press(TextInputKey::ArrowRight, None)],
    );
    assert_eq!(input.cursor, 1);
    text_input_keyboard(
        &mut input,
        1,
        &vec![press(TextInputKey::Other, Some("ß")), press(TextInputKey::Backspace, None)],
    );
    assert_eq!(input.value, "héllo");
    assert_eq!(input.cursor, 1);
    text_input_keyboard(
        &mut input,
        1,
        &vec![press(TextInputKey::End, None), press(TextInputKey::ArrowRight, None)],
    );
    assert_eq!(input.cursor, 5);
    text_input_keyboard(&mut input, 1, &vec![press(TextInputKey::Delete, None)]);
    assert_eq!(input.value, "héllo");
}

#[test]
fn a_cursor_past_the_end_types_at_the_end() {
    let mut input = TextInput::from_config(TextInputConfig::new("Name".to_string()).initial_value("ab".to_string()));
    input.cursor = 5;
    let press = |key, text: Option<&str>| TextInputKeyEvent {
        pressed: true,
        key,
        text: text.map(|t| t.to_string()),
    };
    let events = text_input_keyboard(&mut input, 1, &vec![press(TextInputKey::Backspace, None)]);
    assert_eq!(input.value, "ab");
    assert_eq!(input.cursor, 4);
    assert_eq!(events.len(), 1);
    text_input_keyboard(&mut input, 1, &vec![press(TextInputKey::Other, Some("c"))]);
    assert_eq!(input.value, "abc");
    assert_eq!(input.cursor, 5);
    text_input_keyboard(&mut input, 1, &vec![press(TextInputKey::Delete, None)]);
    assert_eq!(input.value, "abc");
    text_input_keyboard(&mut input, 1, &vec![press(TextInputKey::ArrowRight, None)]);
    assert_eq!(input.cursor, 3);
}
