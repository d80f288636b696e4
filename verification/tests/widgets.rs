use beverly::button_group::{
    button_group_pressed, ButtonGroup, ButtonGroupButton, ButtonGroupOrientation,
    ButtonGroupSelection,
};
use beverly::checkbox::{checkbox_pressed, CheckboxConfig, CheckboxEvent};
use beverly::dropdown::{
    dropdown_keyboard_navigation, dropdown_option_pressed, dropdown_surface_pressed,
    Dropdown, DropdownConfig, DropdownKey, DropdownKeyEvent,
};
use beverly::input::{
    text_input_keyboard, TextInput, TextInputConfig, TextInputEvent, TextInputKey,
    TextInputKeyEvent,
};
use beverly::modal::{
    modal_backdrop, modal_escape, modal_focus, Modal, ModalAncestor, ModalCommand,
    ModalReturnFocus,
};
use beverly::pagination::{pagination_button_pressed, PaginationAction, PaginationState};
use beverly::radio::{radio_pressed, radio_roving_nav, RadioButton, RadioGroup};
use beverly::select::Select;
use beverly::tabs::{tabs_roving_nav, Tab, Tabs};

#[test]
fn pagination_moves_within_bounds_and_reports_changes() {
    let mut state = PaginationState::new(10, 3);
    let ev = pagination_button_pressed(&mut state, 1, PaginationAction::Next, false).unwrap();
    assert_eq!(ev.page, 2);
    assert_eq!(ev.page_size, 10);
    assert!(pagination_button_pressed(&mut state, 1, PaginationAction::Page(9), false).is_some());
    assert_eq!(state.current_page, 3);
    assert!(pagination_button_pressed(&mut state, 1, PaginationAction::Next, false).is_none());
    assert!(pagination_button_pressed(&mut state, 1, PaginationAction::First, true).is_none());
    assert_eq!(state.current_page, 3);
    pagination_button_pressed(&mut state, 1, PaginationAction::Previous, false);
    assert_eq!(state.current_page, 2);
    let zero = PaginationState::new(0, 0);
    assert_eq!((zero.page_size, zero.total_pages), (1, 1));
}

#[test]
fn dropdown_opens_selects_and_navigates() {
    let config = DropdownConfig::new("Pick".to_string())
        .option("A".to_string(), "a".to_string())
        .option("B".to_string(), "b".to_string())
        .selected(5);
    let (dropdown, mut state, _) = Dropdown::from_config(config);
    assert_eq!(state.selected, None);
    assert_eq!(dropdown.label_text(&state), "Pick");

    dropdown_surface_pressed(&dropdown, &mut state, 1);
    assert!(state.open);
    assert_eq!(state.highlighted, Some(0));

    let down = DropdownKeyEvent { pressed: true, key: DropdownKey::ArrowDown };
    let enter = DropdownKeyEvent { pressed: true, key: DropdownKey::Enter };
    dropdown_keyboard_navigation(&dropdown, &mut state, 1, &vec![down, down, enter]);
    assert_eq!(state.selected, Some(0));
    assert!(!state.open);

    let events = dropdown_option_pressed(&dropdown, &mut state, 1, 1);
    assert!(!events.is_empty());
    assert_eq!(state.selected, Some(1));
    assert_eq!(dropdown.label_text(&state), "B");
    assert!(dropdown_option_pressed(&dropdown, &mut state, 1, 7).is_empty());
}

#[test]
fn checkbox_toggles_and_settles_from_indeterminate() {
    let mut state = CheckboxConfig::new().indeterminate(true).initial_state();
    let ev = checkbox_pressed(&mut state, 4);
    assert!(matches!(ev, Some(CheckboxEvent::Changed { entity: 4, checked: true, indeterminate: false })));
    checkbox_pressed(&mut state, 4);
    assert!(!state.checked);
    let mut disabled = CheckboxConfig::new().disabled(true).initial_state();
    assert!(checkbox_pressed(&mut disabled, 4).is_none());
}

#[test]
fn radio_selects_new_values_and_roves() {
    let mut group = RadioGroup { id: "size".to_string(), selected: "s".to_string() };
    let button = RadioButton { group_id: "size".to_string(), value: "m".to_string() };
    let changed = radio_pressed(&mut group, 2, &button).unwrap();
    assert_eq!(changed.value, "m");
    assert!(radio_pressed(&mut group, 2, &button).is_none());

    let buttons = vec![(1, "s".to_string()), (2, "m".to_string()), (3, "l".to_string())];
    let (change, focus) = radio_roving_nav(&mut group, &buttons, 3, true);
    assert_eq!(focus, Some(1));
    assert_eq!(change.unwrap().value, "s");
    assert_eq!(group.selected, "s");
}

#[test]
fn button_group_single_selection_selects_one() {
    let group = ButtonGroup {
        orientation: ButtonGroupOrientation::Horizontal,
        selection: ButtonGroupSelection::Single,
    };
    let mut items = vec![
        (10, ButtonGroupButton::new("a".to_string(), "A".to_string()).selected(true).into_item(1)),
        (11, ButtonGroupButton::new("b".to_string(), "B".to_string()).into_item(1)),
    ];
    let ev = button_group_pressed(&group, 1, &mut items, 1).unwrap();
    assert!(ev.selected);
    assert_eq!(ev.id, "b");
    assert!(!items[0].1.selected && items[1].1.selected);
}

#[test]
fn select_moves_with_keys_and_options() {
    let mut select = Select::new(vec!["x".to_string(), "y".to_string()]);
    select.button_pressed();
    assert!(select.is_open);
    select.keys_pressed(true, false, false);
    assert_eq!(select.selected, Some(0));
    select.keys_pressed(true, false, false);
    select.keys_pressed(true, false, false);
    assert_eq!(select.selected, Some(1));
    let changed = select.option_pressed(9, 0).unwrap();
    assert_eq!(changed.value, "x");
    assert!(!select.is_open);
    assert_eq!(select.label_text(), "x");
}

fn key(key: TextInputKey, text: Option<&str>) -> TextInputKeyEvent {
    TextInputKeyEvent { pressed: true, key, text: text.map(|t| t.to_string()) }
}

#[test]
fn text_input_edits_and_submits() {
    let mut input = TextInput::from_config(TextInputConfig::new("Name".to_string()).max_length(3));
    let events = text_input_keyboard(
        &mut input,
        8,
        &vec![
            key(TextInputKey::Other, Some("ab")),
            key(TextInputKey::ArrowLeft, None),
            key(TextInputKey::Other, Some("xyz")),
            key(TextInputKey::Backspace, None),
            key(TextInputKey::Enter, None),
        ],
    );
    assert_eq!(input.value, "ab");
    assert_eq!(input.cursor, 1);
    assert!(matches!(events.last(), Some(TextInputEvent::Submitted { entity: 8, value }) if value == "ab"));
}

#[test]
fn tabs_rove_with_wraparound() {
    let mut tabs = Tabs::new(vec![
        Tab::new("a".to_string(), "A".to_string()),
        Tab::new("b".to_string(), "B".to_string()),
    ]);
    let (changed, focus) = tabs_roving_nav(&mut tabs, 1, &vec![(20, 0), (21, 1)], 20, false);
    assert_eq!(focus, Some(21));
    assert!(changed.is_some());
    assert_eq!(tabs.active(), 1);
}

#[test]
fn modal_escape_backdrop_and_focus() {
    let modals = vec![(1, Modal::new().open()), (2, Modal::new().open().close_on_escape(false))];
    assert_eq!(modal_escape(&modals, true), vec![ModalCommand::Close(1)]);
    assert!(modal_escape(&modals, false).is_empty());

    let path = vec![
        ModalAncestor { entity: 5, overlay: true, modal: None },
        ModalAncestor { entity: 1, overlay: false, modal: Some(Modal::new().open()) },
    ];
    assert_eq!(modal_backdrop(&path), Some(ModalCommand::Close(1)));

    let mut memory = ModalReturnFocus::default();
    let open = Modal::new().open();
    assert_eq!(modal_focus(1, &open, &mut memory, Some(42), Some(3)), (true, Some(3)));
    let closed = Modal::new();
    assert_eq!(modal_focus(1, &closed, &mut memory, None, Some(3)), (false, Some(42)));
}
