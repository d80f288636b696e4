//! Radio groups: the selected value of a group, what pressing a radio
//! button does, and arrow-key roving through a group.
use vstd::prelude::*;

use crate::tabs::{roving_next, spec_roving_next};
use crate::theme::{Interaction, ThemeSlot};

verus! {

/// A radio group: its id and the value selected in it.
pub struct RadioGroup {
    pub id: String,
    pub selected: String,
}

/// One radio button of group `group_id`, standing for `value`.
pub struct RadioButton {
    pub group_id: String,
    pub value: String,
}

/// Reported when the selection of group `group_id` changes; `entity` is
/// the button that caused it.
pub struct RadioChanged {
    pub entity: u64,
    pub group_id: String,
    pub value: String,
}

/// One choice of a radio group.
pub struct RadioOption {
    pub value: String,
    pub label: String,
}

impl RadioOption {
    /// The choice `value`, shown as `label`.
    pub fn new(value: String, label: String) -> (o: Self)
        ensures
            o.value == value,
            o.label == label,
    {
        RadioOption { value, label }
    }
}

/// Builds a radio group (its spacing and width are held by the rendering
/// layer).
pub struct RadioGroupBuilder {
    pub id: String,
    pub options: Vec<RadioOption>,
    pub selected: Option<String>,
}

impl RadioGroupBuilder {
    /// A group named `id` without options.
    pub fn new(id: String) -> (b: Self)
        ensures
            b.id == id,
            b.options@.len() == 0,
            b.selected is None,
    {
        RadioGroupBuilder { id, options: Vec::new(), selected: None }
    }

    /// Appends a choice.
    pub fn option(self, value: String, label: String) -> (b: Self)
        ensures
            b.id == self.id,
            b.options@ == self.options@.push(RadioOption { value, label }),
            b.selected == self.selected,
    {
        let mut b = self;
        b.options.push(RadioOption::new(value, label));
        b
    }

    /// Replaces the choices by `options`, as `(value, label)` pairs.
    pub fn options(self, options: Vec<(String, String)>) -> (b: Self)
        ensures
            b.id == self.id,
            b.selected == self.selected,
            b.options@.len() == options@.len(),
            forall|i: int|
                0 <= i < options@.len() ==> #[trigger] b.options@[i] == (RadioOption {
                    value: options@[i].0,
                    label: options@[i].1,
                }),
    {
        let mut out: Vec<RadioOption> = Vec::new();
        let ghost all = options@;
        for pair in it: options
            invariant
                out@.len() == it.index(),
                it.seq() == all,
                forall|i: int|
                    0 <= i < out@.len() ==> #[trigger] out@[i] == (RadioOption {
                        value: all[i].0,
                        label: all[i].1,
                    }),
        {
            let (value, label) = pair;
            out.push(RadioOption::new(value, label));
        }
        RadioGroupBuilder { id: self.id, options: out, selected: self.selected }
    }

    /// Selects `value` initially.
    pub fn selected(self, value: String) -> (b: Self)
        ensures
            b.id == self.id,
            b.options == self.options,
            b.selected == Some(value),
    {
        RadioGroupBuilder { selected: Some(value), ..self }
    }

    /// The value the group starts with: the chosen one, else the first
    /// option's, else the empty string.
    pub fn initial_selected(&self) -> (v: String)
        ensures
            v@ == match self.selected {
                Some(s) => s@,
                None => if self.options@.len() > 0 {
                    self.options@[0].value@
                } else {
                    Seq::<char>::empty()
                },
            },
    {
        match &self.selected {
            Some(s) => s.clone(),
            None => if self.options.len() > 0 {
                self.options[0].value.clone()
            } else {
                String::new()
            },
        }
    }
}

/// The radio button `entity` of `button` was pressed while its group is
/// `group`: selecting a value other than the selected one changes the
/// group and is reported; pressing the selected value does nothing.
/// A button of another group leaves `group` alone.
pub fn radio_pressed(group: &mut RadioGroup, entity: u64, button: &RadioButton)
    -> (changed: Option<RadioChanged>)
    ensures
        final(group).id == old(group).id,
        (old(group).id@ != button.group_id@ || old(group).selected@ == button.value@) ==> final(group).selected == old(group).selected && changed is None,
        !(old(group).id@ != button.group_id@ || old(group).selected@ == button.value@) ==> final(group).selected == button.value && changed == Some(
            RadioChanged { entity, group_id: old(group).id, value: button.value },
        ),
{
    if group.id != button.group_id || group.selected == button.value {
        return None;
    }
    group.selected = button.value.clone();
    Some(RadioChanged { entity, group_id: group.id.clone(), value: group.selected.clone() })
}

/// Arrow-key roving inside a radio group: `buttons` are the group's
/// buttons in order, as `(entity, value)`, `focused` is the focused one.
/// With at least two buttons, focus moves to the next (or previous)
/// button, wrapping, and its value becomes selected if it was not.
/// Returns the change to report and the button to focus.
pub fn radio_roving_nav(
    group: &mut RadioGroup,
    buttons: &Vec<(u64, String)>,
    focused: u64,
    forward: bool,
) -> (r: (Option<RadioChanged>, Option<u64>))
    ensures
        final(group).id == old(group).id,
        buttons@.len() < 2 || !(exists|p: int| 0 <= p < buttons@.len() && buttons@[p].0 == focused)
            ==> final(group).selected == old(group).selected && r.0 is None && r.1 is None,
        buttons@.len() >= 2 && (exists|p: int| 0 <= p < buttons@.len() && buttons@[p].0 == focused)
            ==> {
            let p = choose|p: int|
                0 <= p < buttons@.len() && buttons@[p].0 == focused && forall|q: int|
                    0 <= q < p ==> buttons@[q].0 != focused;
            let next = buttons@[spec_roving_next(p, buttons@.len() as int, forward)];
            &&& r.1 == Some(next.0)
            &&& old(group).selected@ == next.1@ ==> final(group).selected == old(group).selected
                && r.0 is None
            &&& old(group).selected@ != next.1@ ==> final(group).selected == next.1 && r.0 == Some(
                RadioChanged { entity: next.0, group_id: old(group).id, value: next.1 },
            )
        },
{
    let len = buttons.len();
    if len < 2 {
        return (None, None);
    }
    let mut position: usize = 0;
    while position < len && buttons[position].0 != focused
        invariant
            position <= len,
            len == buttons@.len(),
            forall|q: int| 0 <= q < position ==> buttons@[q].0 != focused,
        decreases len - position,
    {
        position += 1;
    }
    if position == len {
        return (None, None);
    }
    proof {
        let p = choose|p: int|
            0 <= p < buttons@.len() && buttons@[p].0 == focused && forall|q: int|
                0 <= q < p ==> buttons@[q].0 != focused;
        if p < position {
            assert(buttons@[p].0 != focused);
        }
        if p > position {
            assert(buttons@[position as int].0 != focused);
        }
    }
    let next_position = roving_next(position, len, forward);
    let next_entity = buttons[next_position].0;
    if group.selected != buttons[next_position].1 {
        group.selected = buttons[next_position].1.clone();
        let changed = RadioChanged {
            entity: next_entity,
            group_id: group.id.clone(),
            value: group.selected.clone(),
        };
        return (Some(changed), Some(next_entity));
    }
    (None, Some(next_entity))
}

/// The button standing for `value` is selected in `group`: it is the
/// group's tab stop and is announced as checked.
pub fn radio_is_selected(group: &RadioGroup, button: &RadioButton) -> (b: bool)
    ensures
        b == (group.id@ == button.group_id@ && group.selected@ == button.value@),
{
    group.id == button.group_id && group.selected == button.value
}

/// The colour of a radio button's ring.
pub fn radio_border_color(selected: bool, interaction: Interaction) -> (slot: ThemeSlot)
    ensures
        slot == match (selected, interaction) {
            (true, Interaction::Idle) => ThemeSlot::Primary,
            (true, Interaction::Hovered) => ThemeSlot::PrimaryHover,
            (true, Interaction::Pressed) => ThemeSlot::PrimaryActive,
            (false, Interaction::Idle) => ThemeSlot::Border,
            (false, Interaction::Hovered) => ThemeSlot::BorderStrong,
            (false, Interaction::Pressed) => ThemeSlot::TextMuted,
        },
{
    match (selected, interaction) {
        (true, Interaction::Idle) => ThemeSlot::Primary,
        (true, Interaction::Hovered) => ThemeSlot::PrimaryHover,
        (true, Interaction::Pressed) => ThemeSlot::PrimaryActive,
        (false, Interaction::Idle) => ThemeSlot::Border,
        (false, Interaction::Hovered) => ThemeSlot::BorderStrong,
        (false, Interaction::Pressed) => ThemeSlot::TextMuted,
    }
}

/// The colour of a radio button's dot: shown only when selected.
pub fn radio_dot_color(selected: bool) -> (slot: ThemeSlot)
    ensures
        slot == if selected {
            ThemeSlot::Primary
        } else {
            ThemeSlot::Transparent
        },
{
    if selected {
        ThemeSlot::Primary
    } else {
        ThemeSlot::Transparent
    }
}

/// The colour of a radio button's label.
pub fn radio_label_color(selected: bool) -> (slot: ThemeSlot)
    ensures
        slot == if selected {
            ThemeSlot::Text
        } else {
            ThemeSlot::TextMuted
        },
{
    if selected {
        ThemeSlot::Text
    } else {
        ThemeSlot::TextMuted
    }
}

} // verus!
