//! Checkbox: the checked / indeterminate / disabled state, what a press
//! does to it, and how it is announced and drawn.
use vstd::prelude::*;

use crate::theme::{Interaction, ThemeSlot};

verus! {

/// The state of a checkbox.
#[derive(Clone, Copy, Debug, PartialEq, Eq, Structural)]
pub struct CheckboxState {
    pub checked: bool,
    pub disabled: bool,
    pub indeterminate: bool,
}

/// Reported when a checkbox changes. `entity` identifies the checkbox.
#[derive(Clone, Copy, Debug, PartialEq, Eq, Structural)]
pub enum CheckboxEvent {
    Changed { entity: u64, checked: bool, indeterminate: bool },
}

/// Configuration of a checkbox.
pub struct CheckboxConfig {
    pub label: Option<String>,
    pub checked: bool,
    pub disabled: bool,
    pub indeterminate: bool,
}

impl Default for CheckboxConfig {
    fn default() -> (c: Self)
        ensures
            c.label is None,
            !c.checked,
            !c.disabled,
            !c.indeterminate,
    {
        CheckboxConfig { label: None, checked: false, disabled: false, indeterminate: false }
    }
}

impl CheckboxConfig {
    /// An unlabelled, unchecked, enabled checkbox.
    pub fn new() -> (c: Self)
        ensures
            c.label is None,
            !c.checked,
            !c.disabled,
            !c.indeterminate,
    {
        Self::default()
    }

    /// Sets the label.
    pub fn label(self, label: String) -> (c: Self)
        ensures
            c == (CheckboxConfig { label: Some(label), ..self }),
    {
        CheckboxConfig { label: Some(label), ..self }
    }

    /// Sets whether it starts checked.
    pub fn checked(self, checked: bool) -> (c: Self)
        ensures
            c == (CheckboxConfig { checked, ..self }),
    {
        CheckboxConfig { checked, ..self }
    }

    /// Enables or disables it.
    pub fn disabled(self, disabled: bool) -> (c: Self)
        ensures
            c == (CheckboxConfig { disabled, ..self }),
    {
        CheckboxConfig { disabled, ..self }
    }

    /// Sets whether it starts indeterminate.
    pub fn indeterminate(self, indeterminate: bool) -> (c: Self)
        ensures
            c == (CheckboxConfig { indeterminate, ..self }),
    {
        CheckboxConfig { indeterminate, ..self }
    }

    /// The state the checkbox starts in.
    pub fn initial_state(&self) -> (s: CheckboxState)
        ensures
            s == (CheckboxState {
                checked: self.checked,
                disabled: self.disabled,
                indeterminate: self.indeterminate,
            }),
    {
        CheckboxState {
            checked: self.checked,
            disabled: self.disabled,
            indeterminate: self.indeterminate,
        }
    }

    /// The name it is announced by: its label, or "Checkbox".
    pub fn accessible_label(&self) -> (l: String)
        ensures
            l@ == match self.label {
                Some(s) => s@,
                None => "Checkbox"@,
            },
    {
        match &self.label {
            Some(s) => s.clone(),
            None => String::from_str("Checkbox"),
        }
    }
}

/// The state a press leads to: an indeterminate box becomes checked,
/// otherwise the check flips.
pub open spec fn pressed_state(s: CheckboxState) -> CheckboxState {
    if s.indeterminate {
        CheckboxState { indeterminate: false, checked: true, ..s }
    } else {
        CheckboxState { checked: !s.checked, ..s }
    }
}

/// The checkbox `entity` was pressed. A disabled checkbox ignores it;
/// otherwise the state moves on and the change is reported.
pub fn checkbox_pressed(state: &mut CheckboxState, entity: u64) -> (event: Option<CheckboxEvent>)
    ensures
        old(state).disabled ==> *final(state) == *old(state) && event is None,
        !old(state).disabled ==> *final(state) == pressed_state(*old(state)) && event == Some(
            CheckboxEvent::Changed {
                entity,
                checked: final(state).checked,
                indeterminate: final(state).indeterminate,
            },
        ),
{
    if state.disabled {
        return None;
    }
    if state.indeterminate {
        state.indeterminate = false;
        state.checked = true;
    } else {
        state.checked = !state.checked;
    }
    Some(
        CheckboxEvent::Changed {
            entity,
            checked: state.checked,
            indeterminate: state.indeterminate,
        },
    )
}

/// A determinate checkbox pressed twice is back where it started; an
/// indeterminate one settles after one press into the determinate cycle.
pub proof fn lemma_press_twice(s: CheckboxState)
    ensures
        !s.indeterminate ==> pressed_state(pressed_state(s)) == s,
        !pressed_state(s).indeterminate,
{
}

/// The toggle state announced to assistive technology.
#[derive(Clone, Copy, Debug, PartialEq, Eq, Structural)]
pub enum Toggled {
    False,
    True,
    Mixed,
}

/// Mixed when indeterminate, else whether it is checked.
pub fn toggled(state: &CheckboxState) -> (t: Toggled)
    ensures
        t == if state.indeterminate {
            Toggled::Mixed
        } else if state.checked {
            Toggled::True
        } else {
            Toggled::False
        },
{
    if state.indeterminate {
        Toggled::Mixed
    } else if state.checked {
        Toggled::True
    } else {
        Toggled::False
    }
}

/// The feather icon of the mark: a minus when indeterminate, a check when
/// checked, none otherwise.
pub fn mark_icon(checked: bool, indeterminate: bool) -> (icon: Option<&'static str>)
    ensures
        indeterminate ==> (icon matches Some(s) && s@ == "minus"@),
        !indeterminate && checked ==> (icon matches Some(s) && s@ == "check"@),
        !indeterminate && !checked ==> icon is None,
{
    if indeterminate {
        Some("minus")
    } else if checked {
        Some("check")
    } else {
        None
    }
}

/// Where the check and dash marks animate to: `(check shown, dash shown)`.
pub fn mark_targets(state: &CheckboxState) -> (t: (bool, bool))
    ensures
        t == (state.checked && !state.indeterminate, state.indeterminate),
{
    (state.checked && !state.indeterminate, state.indeterminate)
}

/// The colour of the box.
pub fn box_color(checked: bool, indeterminate: bool, disabled: bool, interaction: Interaction)
    -> (slot: ThemeSlot)
    ensures
        slot == if disabled {
            if checked || indeterminate {
                ThemeSlot::PrimaryActive
            } else {
                ThemeSlot::SurfaceElevated
            }
        } else if checked || indeterminate {
            match interaction {
                Interaction::Hovered => ThemeSlot::PrimaryHover,
                Interaction::Pressed => ThemeSlot::PrimaryActive,
                Interaction::Idle => ThemeSlot::Primary,
            }
        } else {
            match interaction {
                Interaction::Hovered => ThemeSlot::Secondary,
                Interaction::Pressed => ThemeSlot::BorderStrong,
                Interaction::Idle => ThemeSlot::Surface,
            }
        },
{
    if disabled {
        return if checked || indeterminate {
            ThemeSlot::PrimaryActive
        } else {
            ThemeSlot::SurfaceElevated
        };
    }
    if checked || indeterminate {
        match interaction {
            Interaction::Hovered => ThemeSlot::PrimaryHover,
            Interaction::Pressed => ThemeSlot::PrimaryActive,
            Interaction::Idle => ThemeSlot::Primary,
        }
    } else {
        match interaction {
            Interaction::Hovered => ThemeSlot::Secondary,
            Interaction::Pressed => ThemeSlot::BorderStrong,
            Interaction::Idle => ThemeSlot::Surface,
        }
    }
}

/// The colour of the label: muted-disabled text when disabled.
pub fn label_color(disabled: bool) -> (slot: ThemeSlot)
    ensures
        slot == if disabled {
            ThemeSlot::TextDisabled
        } else {
            ThemeSlot::Text
        },
{
    if disabled {
        ThemeSlot::TextDisabled
    } else {
        ThemeSlot::Text
    }
}

} // verus!
