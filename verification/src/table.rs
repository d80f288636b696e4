//! Tables: the events a press on a header, cell or row announces, which
//! text each cell of a row shows, and how rows are shaded.
use vstd::prelude::*;

use crate::text::same_text;
use crate::theme::Interaction;

verus! {

/// What a table announces.
pub enum TableEvent {
    RowClicked { table_id: String, row_id: String },
    CellClicked { table_id: String, row_id: String, column_id: String },
    HeaderClicked { table_id: String, column_id: String },
    RowSelected { table_id: String, row_id: String },
}

/// A row of a table, as its node knows it.
pub struct TableRowNode {
    pub table_id: String,
    pub row_id: String,
    pub selectable: bool,
    pub row_index: usize,
    pub striped: bool,
}

/// A cell of a table, as its node knows it.
pub struct TableCellNode {
    pub table_id: String,
    pub row_id: String,
    pub column_id: String,
}

/// A column header, as its node knows it.
pub struct TableHeaderNode {
    pub table_id: String,
    pub column_id: String,
}

/// The text of one cell.
pub struct TableCell {
    pub text: String,
}

/// A row: its id and the cells it shows, one per column.
pub struct TableRow {
    pub id: String,
    pub cells: Vec<TableCell>,
}

/// The events of a press: a header announces its click, else a cell its
/// click, else a row its click and, if rows are selectable, its selection.
/// Nothing is announced but on a press.
pub open spec fn spec_press_events(
    row: Option<TableRowNode>,
    cell: Option<TableCellNode>,
    header: Option<TableHeaderNode>,
    interaction: Interaction,
) -> Seq<TableEvent> {
    if interaction != Interaction::Pressed {
        Seq::empty()
    } else if let Some(h) = header {
        seq![TableEvent::HeaderClicked { table_id: h.table_id, column_id: h.column_id }]
    } else if let Some(c) = cell {
        seq![
            TableEvent::CellClicked {
                table_id: c.table_id,
                row_id: c.row_id,
                column_id: c.column_id,
            },
        ]
    } else if let Some(r) = row {
        if r.selectable {
            seq![
                TableEvent::RowClicked { table_id: r.table_id, row_id: r.row_id },
                TableEvent::RowSelected { table_id: r.table_id, row_id: r.row_id },
            ]
        } else {
            seq![TableEvent::RowClicked { table_id: r.table_id, row_id: r.row_id }]
        }
    } else {
        Seq::empty()
    }
}

/// The events a change of interaction on a table node announces.
pub fn table_press_events(
    row: Option<&TableRowNode>,
    cell: Option<&TableCellNode>,
    header: Option<&TableHeaderNode>,
    interaction: Interaction,
) -> (events: Vec<TableEvent>)
    ensures
        events@ == spec_press_events(
            match row {
                Some(r) => Some(*r),
                None => None,
            },
            match cell {
                Some(c) => Some(*c),
                None => None,
            },
            match header {
                Some(h) => Some(*h),
                None => None,
            },
            interaction,
        ),
{
    let mut events: Vec<TableEvent> = Vec::new();
    match interaction {
        Interaction::Pressed => {},
        _ => {
            return events;
        },
    }
    if let Some(h) = header {
        events.push(
            TableEvent::HeaderClicked { table_id: h.table_id.clone(), column_id: h.column_id.clone() },
        );
        return events;
    }
    if let Some(c) = cell {
        events.push(
            TableEvent::CellClicked {
                table_id: c.table_id.clone(),
                row_id: c.row_id.clone(),
                column_id: c.column_id.clone(),
            },
        );
        return events;
    }
    if let Some(r) = row {
        events.push(TableEvent::RowClicked { table_id: r.table_id.clone(), row_id: r.row_id.clone() });
        if r.selectable {
            events.push(
                TableEvent::RowSelected { table_id: r.table_id.clone(), row_id: r.row_id.clone() },
            );
        }
    }
    events
}

/// The text under column `column` among `entries` (column id and text): the
/// first entry for it, or nothing.
pub open spec fn cell_text_for(entries: Seq<(String, String)>, column: Seq<char>) -> Seq<char>
    decreases entries.len(),
{
    if entries.len() == 0 {
        Seq::empty()
    } else if entries[0].0@ == column {
        entries[0].1@
    } else {
        cell_text_for(entries.drop_first(), column)
    }
}

/// The text of the cell under `column`.
fn find_cell_text(entries: &Vec<(String, String)>, column: &str) -> (r: String)
    ensures
        r@ == cell_text_for(entries@, column@),
{
    let mut i: usize = 0;
    assert(entries@.skip(0) =~= entries@);
    while i < entries.len()
        invariant
            i <= entries@.len(),
            cell_text_for(entries@, column@) == cell_text_for(entries@.skip(i as int), column@),
        decreases entries@.len() - i,
    {
        assert(entries@.skip(i as int).drop_first() =~= entries@.skip(i + 1));
        assert(entries@.skip(i as int)[0] == entries@[i as int]);
        if same_text(entries[i].0.as_str(), column) {
            return entries[i].1.clone();
        }
        i += 1;
    }
    String::new()
}

/// A row whose cells follow `columns`: each shows the text of its column's
/// entry, or nothing when the row has none.
pub fn row_for_columns(id: String, columns: &Vec<String>, entries: &Vec<(String, String)>) -> (r:
    TableRow)
    ensures
        r.id == id,
        r.cells@.len() == columns@.len(),
        forall|k: int|
            0 <= k < columns@.len() ==> (#[trigger] r.cells@[k]).text@ == cell_text_for(
                entries@,
                columns@[k]@,
            ),
{
    let mut cells: Vec<TableCell> = Vec::new();
    let mut k: usize = 0;
    while k < columns.len()
        invariant
            k <= columns@.len(),
            cells@.len() == k,
            forall|j: int|
                0 <= j < k ==> (#[trigger] cells@[j]).text@ == cell_text_for(entries@, columns@[j]@),
        decreases columns@.len() - k,
    {
        let text = find_cell_text(entries, columns[k].as_str());
        cells.push(TableCell { text });
        k += 1;
    }
    TableRow { id, cells }
}

/// The cell nodes of a row: one per cell that has a column, pairing the
/// cell with the column at its place; extra cells are not shown.
pub fn row_cell_nodes(table_id: &String, row: &TableRow, columns: &Vec<String>) -> (nodes: Vec<
    TableCellNode,
>)
    ensures
        nodes@.len() == (if row.cells@.len() <= columns@.len() {
            row.cells@.len()
        } else {
            columns@.len()
        }),
        forall|k: int|
            0 <= k < nodes@.len() ==> (#[trigger] nodes@[k]) == (TableCellNode {
                table_id: *table_id,
                row_id: row.id,
                column_id: columns@[k],
            }),
{
    let mut nodes: Vec<TableCellNode> = Vec::new();
    let mut k: usize = 0;
    while k < row.cells.len() && k < columns.len()
        invariant
            k <= row.cells@.len(),
            k <= columns@.len(),
            nodes@.len() == k,
            forall|j: int|
                0 <= j < k ==> (#[trigger] nodes@[j]) == (TableCellNode {
                    table_id: *table_id,
                    row_id: row.id,
                    column_id: columns@[j],
                }),
        decreases row.cells@.len() - k,
    {
        nodes.push(
            TableCellNode {
                table_id: table_id.clone(),
                row_id: row.id.clone(),
                column_id: columns[k].clone(),
            },
        );
        k += 1;
    }
    nodes
}

/// How a row is shaded.
#[derive(Clone, Copy, Debug, PartialEq, Eq, Structural)]
pub enum RowShade {
    Pressed,
    Hovered,
    /// At rest, on an odd row of a striped table.
    Stripe,
    /// At rest otherwise.
    Plain,
}

/// Odd rows of a striped table carry the stripe.
pub open spec fn spec_is_stripe(striped: bool, row_index: usize) -> bool {
    striped && row_index % 2 == 1
}

/// The shade of a row in a pointer state.
pub fn row_shade(row: &TableRowNode, interaction: Interaction) -> (s: RowShade)
    ensures
        s == match interaction {
            Interaction::Pressed => RowShade::Pressed,
            Interaction::Hovered => RowShade::Hovered,
            Interaction::Idle => if spec_is_stripe(row.striped, row.row_index) {
                RowShade::Stripe
            } else {
                RowShade::Plain
            },
        },
{
    match interaction {
        Interaction::Pressed => RowShade::Pressed,
        Interaction::Hovered => RowShade::Hovered,
        Interaction::Idle => if row.striped && row.row_index % 2 == 1 {
            RowShade::Stripe
        } else {
            RowShade::Plain
        },
    }
}

/// A press announces at most two events, and two only as a row click
/// followed by the selection of the same row.
pub proof fn lemma_press_events_shape(
    row: Option<TableRowNode>,
    cell: Option<TableCellNode>,
    header: Option<TableHeaderNode>,
    interaction: Interaction,
)
    ensures
        spec_press_events(row, cell, header, interaction).len() <= 2,
        spec_press_events(row, cell, header, interaction).len() == 2 ==> ({
            let ev = spec_press_events(row, cell, header, interaction);
            &&& header is None
            &&& cell is None
            &&& row matches Some(r) && r.selectable
            &&& ev[0] matches TableEvent::RowClicked { table_id: t0, row_id: r0 }
            &&& ev[1] matches TableEvent::RowSelected { table_id: t1, row_id: r1 }
            &&& t0 == t1 && r0 == r1
        }),
        interaction != Interaction::Pressed ==> spec_press_events(
            row,
            cell,
            header,
            interaction,
        ).len() == 0,
{
}


/// What a press announces, by what was pressed: a header, its click with
/// its table and column; else a cell, its click with its table, row and
/// column, each taken from the same field of the cell; else a row, its
/// click with its table and row, followed by its selection when rows are
/// selectable.
pub proof fn lemma_press_events_carry_the_node_ids(
    row: Option<TableRowNode>,
    cell: Option<TableCellNode>,
    header: Option<TableHeaderNode>,
)
    ensures
        ({
            let ev = spec_press_events(row, cell, header, Interaction::Pressed);
            &&& header matches Some(h) ==> ev.len() == 1 && (ev[0] matches TableEvent::HeaderClicked {
                table_id: t,
                column_id: c,
            } && t == h.table_id && c == h.column_id)
            &&& header is None ==> (cell matches Some(c) ==> ev.len() == 1 && (
            ev[0] matches TableEvent::CellClicked { table_id: t, row_id: r, column_id: k } && t
                == c.table_id && r == c.row_id && k == c.column_id))
            &&& header is None && cell is None ==> (row matches Some(w) ==> ev.len() == (
            if w.selectable {
                2int
            } else {
                1int
            }) && (ev[0] matches TableEvent::RowClicked { table_id: t, row_id: r } && t
                == w.table_id && r == w.row_id) && (w.selectable ==> (
            ev[1] matches TableEvent::RowSelected { table_id: t, row_id: r } && t == w.table_id
                && r == w.row_id)))
            &&& header is None && cell is None && row is None ==> ev.len() == 0
        }),
{
}

} // verus!
