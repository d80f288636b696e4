use beverly::card::{begins_card_drag, card_drag_step, hydrated_order, CardDragStep};
use beverly::container::{ContainerScroll, ScrollAxis, ScrollMode};
use beverly::footer::{footer_placement, Footer, FooterPlacement};
use beverly::sidebar::{toggle_sidebar, Navbar, SidebarState};
use beverly::table::{row_cell_nodes, row_for_columns, row_shade, table_press_events, RowShade, TableEvent, TableHeaderNode, TableRowNode};
use beverly::theme::Interaction;

#[test]
fn hydration_puts_saved_cards_first() {
    let children = vec![10, 11, 12, 13];
    let ids = vec![
        Some("a".to_string()),
        Some("b".to_string()),
        None,
        Some("c".to_string()),
    ];
    let order = vec!["c".to_string(), "zzz".to_string(), "a".to_string()];
    assert_eq!(hydrated_order(&children, &ids, &order), vec![13, 10, 11, 12]);
    assert_eq!(hydrated_order(&children, &ids, &Vec::new()), children);
}

#[test]
fn dragging_a_card_moves_it_to_the_hovered_place() {
    let siblings = vec![1, 2, 3];
    let surfaces = vec![(2, Interaction::Idle), (1, Interaction::Hovered), (3, Interaction::Hovered)];
    assert_eq!(card_drag_step(false, true, Some(&siblings), 2, &surfaces), CardDragStep::MoveTo(0));
    assert_eq!(card_drag_step(true, true, Some(&siblings), 2, &surfaces), CardDragStep::Cancel);
    assert_eq!(card_drag_step(false, false, Some(&siblings), 2, &surfaces), CardDragStep::Cancel);
    assert_eq!(card_drag_step(false, true, None, 2, &surfaces), CardDragStep::Cancel);
    assert_eq!(card_drag_step(false, true, Some(&siblings), 9, &surfaces), CardDragStep::Cancel);
    let calm = vec![(1, Interaction::Idle)];
    assert_eq!(card_drag_step(false, true, Some(&siblings), 2, &calm), CardDragStep::Wait);
    assert!(begins_card_drag(false, Interaction::Pressed, true, true));
    assert!(!begins_card_drag(true, Interaction::Pressed, true, true));
}

#[test]
fn container_axes() {
    assert_eq!(ContainerScroll::none(), ContainerScroll::default());
    let both = ContainerScroll::both();
    assert_eq!(both.x, ScrollMode::Scroll);
    assert_eq!(both.y, ScrollMode::Scroll);
    assert_eq!(both.z, ScrollMode::Clip);
    assert!(both.is_scrollable_xy());
    assert!(!ContainerScroll::none().with_z(ScrollMode::Scroll).is_scrollable_xy());
    assert!(ContainerScroll::y().is_scrollable_xy());
    assert_eq!(ContainerScroll::x().with_axis(ScrollAxis::X, ScrollMode::Clip), ContainerScroll::none());
}

#[test]
fn sidebar_and_bars() {
    let mut state = SidebarState::default();
    assert!(state.open);
    toggle_sidebar(&mut state, &vec![Interaction::Pressed, Interaction::Hovered]);
    assert!(!state.open);
    toggle_sidebar(&mut state, &vec![Interaction::Pressed, Interaction::Pressed]);
    assert!(!state.open);
    assert!(Navbar::new().fixed(true).fixed);
    assert_eq!(footer_placement(&Footer::new()), FooterPlacement::InFlow);
    assert_eq!(footer_placement(&Footer::new().fixed(true)), FooterPlacement::PinnedToBottom);
}

#[test]
fn table_routes_presses() {
    let row = TableRowNode {
        table_id: "t".to_string(),
        row_id: "r1".to_string(),
        selectable: true,
        row_index: 1,
        striped: true,
    };
    let header = TableHeaderNode { table_id: "t".to_string(), column_id: "name".to_string() };
    let ev = table_press_events(Some(&row), None, Some(&header), Interaction::Pressed);
    assert_eq!(ev.len(), 1);
    assert!(matches!(&ev[0], TableEvent::HeaderClicked { column_id, .. } if column_id == "name"));
    let ev = table_press_events(Some(&row), None, None, Interaction::Pressed);
    assert_eq!(ev.len(), 2);
    assert!(matches!(&ev[1], TableEvent::RowSelected { row_id, .. } if row_id == "r1"));
    assert!(table_press_events(Some(&row), None, None, Interaction::Hovered).is_empty());
    assert_eq!(row_shade(&row, Interaction::Idle), RowShade::Stripe);
    assert_eq!(row_shade(&row, Interaction::Pressed), RowShade::Pressed);
}

#[test]
fn table_rows_follow_columns() {
    let columns = vec!["name".to_string(), "age".to_string(), "city".to_string()];
    let entries = vec![("age".to_string(), "42".to_string()), ("name".to_string(), "Ada".to_string())];
    let row = row_for_columns("r".to_string(), &columns, &entries);
    let texts: Vec<&str> = row.cells.iter().map(|c| c.text.as_str()).collect();
    assert_eq!(texts, vec!["Ada", "42", ""]);
    let nodes = row_cell_nodes(&"t".to_string(), &row, &vec!["name".to_string()]);
    assert_eq!(nodes.len(), 1);
    assert_eq!(nodes[0].column_id, "name");
    assert_eq!(nodes[0].row_id, "r");
}
