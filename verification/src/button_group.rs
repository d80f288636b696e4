//! Button groups: how pressing one button changes the selection of the
//! group under each selection mode.
use vstd::prelude::*;

verus! {

/// Layout direction of a button group.
#[derive(Clone, Copy, Debug, PartialEq, Eq, Structural)]
pub enum ButtonGroupOrientation {
    Horizontal,
    Vertical,
}

/// How many buttons of a group can be selected.
#[derive(Clone, Copy, Debug, PartialEq, Eq, Structural)]
pub enum ButtonGroupSelection {
    /// Buttons act, none stays selected.
    NoSelection,
    /// Exactly the last pressed button is selected.
    Single,
    /// Each press toggles the pressed button.
    Multiple,
}

/// A button group.
#[derive(Clone, Copy, Debug, PartialEq, Eq, Structural)]
pub struct ButtonGroup {
    pub orientation: ButtonGroupOrientation,
    pub selection: ButtonGroupSelection,
}

/// One button of group `group`.
pub struct ButtonGroupItem {
    pub group: u64,
    pub id: String,
    pub selected: bool,
    pub disabled: bool,
}

/// Reported when a button of a group is pressed.
pub struct ButtonGroupEvent {
    pub group: u64,
    pub button: u64,
    pub id: String,
    pub selected: bool,
}

/// Configuration of a button group (its spacing is held by the rendering
/// layer).
#[derive(Clone, Copy, Debug, PartialEq, Eq, Structural)]
pub struct ButtonGroupConfig {
    pub orientation: ButtonGroupOrientation,
    pub selection: ButtonGroupSelection,
}

impl Default for ButtonGroupConfig {
    fn default() -> (c: Self)
        ensures
            c == (ButtonGroupConfig {
                orientation: ButtonGroupOrientation::Horizontal,
                selection: ButtonGroupSelection::Single,
            }),
    {
        ButtonGroupConfig {
            orientation: ButtonGroupOrientation::Horizontal,
            selection: ButtonGroupSelection::Single,
        }
    }
}

/// A button to put in a group.
pub struct ButtonGroupButton {
    pub id: String,
    pub label: String,
    pub selected: bool,
    pub disabled: bool,
}

impl ButtonGroupButton {
    /// An unselected, enabled button named `id`, showing `label`.
    pub fn new(id: String, label: String) -> (b: Self)
        ensures
            b.id == id,
            b.label == label,
            !b.selected,
            !b.disabled,
    {
        ButtonGroupButton { id, label, selected: false, disabled: false }
    }

    /// Sets whether it starts selected.
    pub fn selected(self, selected: bool) -> (b: Self)
        ensures
            b == (ButtonGroupButton { selected, ..self }),
    {
        ButtonGroupButton { selected, ..self }
    }

    /// Enables or disables it.
    pub fn disabled(self, disabled: bool) -> (b: Self)
        ensures
            b == (ButtonGroupButton { disabled, ..self }),
    {
        ButtonGroupButton { disabled, ..self }
    }

    /// The item the button becomes in group `group`.
    pub fn into_item(self, group: u64) -> (item: ButtonGroupItem)
        ensures
            item == (ButtonGroupItem {
                group,
                id: self.id,
                selected: self.selected,
                disabled: self.disabled,
            }),
    {
        ButtonGroupItem { group, id: self.id, selected: self.selected, disabled: self.disabled }
    }
}

/// The selection after pressing button `pressed` among the group's
/// buttons whose selection is `before`.
pub open spec fn selection_after(
    mode: ButtonGroupSelection,
    before: Seq<bool>,
    pressed: int,
) -> Seq<bool> {
    match mode {
        ButtonGroupSelection::NoSelection => before,
        ButtonGroupSelection::Single => Seq::new(before.len(), |i: int| i == pressed),
        ButtonGroupSelection::Multiple => before.update(pressed, !before[pressed]),
    }
}

/// The selection flags of the items.
pub open spec fn selection_of(items: Seq<(u64, ButtonGroupItem)>) -> Seq<bool> {
    Seq::new(items.len(), |i: int| items[i].1.selected)
}

/// Button `pressed` of `items` (the buttons of `group`, as
/// `(entity, item)`) was pressed. A disabled button does nothing.
/// Otherwise the selection follows the group's mode and the press is
/// reported with the pressed button's new selection (never selected in a
/// group without selection).
pub fn button_group_pressed(
    group: &ButtonGroup,
    group_entity: u64,
    items: &mut Vec<(u64, ButtonGroupItem)>,
    pressed: usize,
) -> (event: Option<ButtonGroupEvent>)
    requires
        pressed < old(items)@.len(),
    ensures
        final(items)@.len() == old(items)@.len(),
        forall|i: int|
            0 <= i < old(items)@.len() ==> #[trigger] final(items)@[i].0 == old(items)@[i].0
                && final(items)@[i].1.id == old(items)@[i].1.id && final(items)@[i].1.group == old(items)@[i].1.group && final(items)@[i].1.disabled == old(items)@[i].1.disabled,
        old(items)@[pressed as int].1.disabled ==> selection_of(final(items)@) == selection_of(
            old(items)@,
        ) && event is None,
        !old(items)@[pressed as int].1.disabled ==> selection_of(final(items)@)
            == selection_after(group.selection, selection_of(old(items)@), pressed as int),
        !old(items)@[pressed as int].1.disabled ==> event == Some(
            ButtonGroupEvent {
                group: group_entity,
                button: old(items)@[pressed as int].0,
                id: old(items)@[pressed as int].1.id,
                selected: group.selection != ButtonGroupSelection::NoSelection
                    && selection_of(final(items)@)[pressed as int],
            },
        ),
{
    if items[pressed].1.disabled {
        return None;
    }
    let ghost before = items@;
    let button = items[pressed].0;
    match group.selection {
        ButtonGroupSelection::NoSelection => {
            let id = items[pressed].1.id.clone();
            proof {
                assert(selection_of(items@) =~= selection_after(
                    group.selection,
                    selection_of(before),
                    pressed as int,
                ));
            }
            Some(ButtonGroupEvent { group: group_entity, button, id, selected: false })
        },
        ButtonGroupSelection::Single => {
            let mut i: usize = 0;
            while i < items.len()
                invariant
                    items@.len() == before.len(),
                    before == old(items)@,
                    pressed < before.len(),
                    i <= items@.len(),
                    button == before[pressed as int].0,
                    forall|k: int|
                        0 <= k < before.len() ==> #[trigger] items@[k].0 == before[k].0
                            && items@[k].1.id == before[k].1.id && items@[k].1.group
                            == before[k].1.group && items@[k].1.disabled == before[k].1.disabled,
                    forall|k: int| 0 <= k < i ==> #[trigger] items@[k].1.selected == (k == pressed),
                    forall|k: int| i <= k < before.len() ==> #[trigger] items@[k].1.selected == before[k].1.selected,
                decreases before.len() - i,
            {
                let ghost prev = items@;
                let (entity, mut item) = items.remove(i);
                let ghost removed = item;
                item.selected = i == pressed;
                items.insert(i, (entity, item));
                proof {
                    assert(items@ =~= prev.update(i as int, (entity, item)));
                    assert(removed == prev[i as int].1);
                    assert forall|k: int| 0 <= k < before.len() implies #[trigger] items@[k].0
                        == before[k].0 && items@[k].1.id == before[k].1.id && items@[k].1.group
                        == before[k].1.group && items@[k].1.disabled
                        == before[k].1.disabled by {
                        if k != i {
                            assert(items@[k] == prev[k]);
                        }
                    }
                }
                i += 1;
            }
            proof {
                assert(selection_of(items@) =~= selection_after(
                    group.selection,
                    selection_of(before),
                    pressed as int,
                ));
            }
            assert(items@[pressed as int].0 == before[pressed as int].0);
            let id = items[pressed].1.id.clone();
            Some(ButtonGroupEvent { group: group_entity, button, id, selected: true })
        },
        ButtonGroupSelection::Multiple => {
            let ghost prev = items@;
            let (entity, mut item) = items.remove(pressed);
            item.selected = !item.selected;
            let selected = item.selected;
            let id = item.id.clone();
            items.insert(pressed, (entity, item));
            proof {
                assert(items@ =~= prev.update(pressed as int, (entity, item)));
                assert(selection_of(items@) =~= selection_after(
                    group.selection,
                    selection_of(before),
                    pressed as int,
                ));
            }
            Some(ButtonGroupEvent { group: group_entity, button, id, selected })
        },
    }
}

/// After a press on an enabled button of a single-selection group,
/// exactly that button is selected.
pub proof fn lemma_single_selection_selects_one(before: Seq<bool>, pressed: int)
    requires
        0 <= pressed < before.len(),
    ensures
        ({
            let after = selection_after(ButtonGroupSelection::Single, before, pressed);
            &&& after[pressed]
            &&& forall|i: int| 0 <= i < after.len() && i != pressed ==> !#[trigger] after[i]
        }),
{
}

/// Pressing the same button of a multiple-selection group twice
/// leaves the selection as it was.
pub proof fn lemma_multiple_selection_press_twice(before: Seq<bool>, pressed: int)
    requires
        0 <= pressed < before.len(),
    ensures
        selection_after(
            ButtonGroupSelection::Multiple,
            selection_after(ButtonGroupSelection::Multiple, before, pressed),
            pressed,
        ) == before,
{
    assert(selection_after(
        ButtonGroupSelection::Multiple,
        selection_after(ButtonGroupSelection::Multiple, before, pressed),
        pressed,
    ) =~= before);
}

} // verus!
