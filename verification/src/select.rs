//! Select: a list of typed options with an optional selection, opened and
//! closed by its button and driven by the arrow keys while open.
use vstd::prelude::*;

verus! {

/// A select over options of type `T` (its width is held by the rendering
/// layer).
pub struct Select<T> {
    pub options: Vec<T>,
    pub selected: Option<usize>,
    pub placeholder: String,
    pub disabled: bool,
    pub is_open: bool,
}

/// Reported when the selection of select `entity` changes.
pub struct SelectChanged<T> {
    pub entity: u64,
    pub index: usize,
    pub value: T,
}

impl<T> SelectChanged<T> {
    /// The change of `entity` to option `index` holding `value`.
    pub fn new(entity: u64, index: usize, value: T) -> (c: Self)
        ensures
            c.entity == entity,
            c.index == index,
            c.value == value,
    {
        SelectChanged { entity, index, value }
    }
}

impl<T> Select<T> {
    /// A closed, enabled select over `options` with nothing selected.
    pub fn new(options: Vec<T>) -> (s: Self)
        ensures
            s.options == options,
            s.selected is None,
            s.placeholder@ == "Select an option..."@,
            !s.disabled,
            !s.is_open,
    {
        Select {
            options,
            selected: None,
            placeholder: String::from_str("Select an option..."),
            disabled: false,
            is_open: false,
        }
    }

    /// Sets the placeholder shown while nothing is selected.
    pub fn placeholder(self, value: String) -> (s: Self)
        ensures
            s == (Select { placeholder: value, ..self }),
    {
        Select { placeholder: value, ..self }
    }

    /// Selects option `index`; an index beyond the options is ignored.
    pub fn selected(self, index: usize) -> (s: Self)
        ensures
            s == (Select {
                selected: if index < self.options@.len() {
                    Some(index)
                } else {
                    self.selected
                },
                ..self
            }),
    {
        let mut s = self;
        if index < s.options.len() {
            s.selected = Some(index);
        }
        s
    }

    /// Enables or disables the select.
    pub fn disabled(self, disabled: bool) -> (s: Self)
        ensures
            s == (Select { disabled, ..self }),
    {
        Select { disabled, ..self }
    }

    /// The selected option, if the selection names one.
    pub fn selected_value(&self) -> (v: Option<&T>)
        ensures
            v == match self.selected {
                Some(i) => if i < self.options@.len() {
                    Some(&self.options@[i as int])
                } else {
                    None
                },
                None => None,
            },
    {
        match self.selected {
            Some(i) => if i < self.options.len() {
                Some(&self.options[i])
            } else {
                None
            },
            None => None,
        }
    }

    /// Selects option `index`; an index beyond the options is ignored.
    pub fn select(&mut self, index: usize)
        ensures
            final(self).options == old(self).options,
            final(self).placeholder == old(self).placeholder,
            final(self).disabled == old(self).disabled,
            final(self).is_open == old(self).is_open,
            final(self).selected == if index < old(self).options@.len() {
                Some(index)
            } else {
                old(self).selected
            },
    {
        if index < self.options.len() {
            self.selected = Some(index);
        }
    }

    /// Clears the selection.
    pub fn clear(&mut self)
        ensures
            final(self).options == old(self).options,
            final(self).placeholder == old(self).placeholder,
            final(self).disabled == old(self).disabled,
            final(self).is_open == old(self).is_open,
            final(self).selected is None,
    {
        self.selected = None;
    }

    /// The select's button was pressed: an enabled select opens or closes.
    pub fn button_pressed(&mut self)
        ensures
            final(self).options == old(self).options,
            final(self).placeholder == old(self).placeholder,
            final(self).disabled == old(self).disabled,
            final(self).selected == old(self).selected,
            final(self).is_open == if old(self).disabled {
                old(self).is_open
            } else {
                !old(self).is_open
            },
    {
        if !self.disabled {
            self.is_open = !self.is_open;
        }
    }

    /// The keys pressed this frame while the select is open: Down moves the
    /// selection to the next option (stopping at the last; from nothing it
    /// goes to the first), Up to the previous (stopping at the first),
    /// Escape closes. A disabled or closed select ignores them.
    pub fn keys_pressed(&mut self, down: bool, up: bool, escape: bool)
        requires
            down && old(self).is_open && !old(self).disabled ==> old(self).selected != Some(
                usize::MAX,
            ),
        ensures
            final(self).options == old(self).options,
            final(self).placeholder == old(self).placeholder,
            final(self).disabled == old(self).disabled,
            (old(self).disabled || !old(self).is_open) ==> final(self).selected == old(self).selected && final(self).is_open == old(self).is_open,
            !(old(self).disabled || !old(self).is_open) ==> {
                let n = old(self).options@.len();
                let last = if n == 0 {
                    0
                } else {
                    n - 1
                };
                let after_down = if down {
                    match old(self).selected {
                        Some(i) => Some(
                            if i + 1 < last {
                                (i + 1) as usize
                            } else {
                                last as usize
                            },
                        ),
                        None => Some(0usize),
                    }
                } else {
                    old(self).selected
                };
                let after_up = if up {
                    match after_down {
                        Some(i) => Some(
                            if i >= 1 {
                                (i - 1) as usize
                            } else {
                                0usize
                            },
                        ),
                        None => Some(0usize),
                    }
                } else {
                    after_down
                };
                &&& final(self).selected == after_up
                &&& final(self).is_open == !escape
            },
    {
        if self.disabled || !self.is_open {
            return;
        }
        let last = self.options.len().saturating_sub(1);
        if down {
            self.selected = match self.selected {
                Some(i) => Some(if i + 1 < last { i + 1 } else { last }),
                None => Some(0),
            };
        }
        if up {
            self.selected = match self.selected {
                Some(i) => Some(i.saturating_sub(1)),
                None => Some(0),
            };
        }
        if escape {
            self.is_open = false;
        }
    }
}

impl Select<String> {
    /// Option `index` was pressed: an enabled select selects it, closes and
    /// reports the change; a disabled select, or an index beyond the
    /// options, does nothing.
    pub fn option_pressed(&mut self, entity: u64, index: usize) -> (changed: Option<
        SelectChanged<String>,
    >)
        ensures
            final(self).options == old(self).options,
            final(self).placeholder == old(self).placeholder,
            final(self).disabled == old(self).disabled,
            (old(self).disabled || index >= old(self).options@.len()) ==> final(self).selected
                == old(self).selected && final(self).is_open == old(self).is_open
                && changed is None,
            !(old(self).disabled || index >= old(self).options@.len()) ==> final(self).selected
                == Some(index) && !final(self).is_open && changed == Some(
                SelectChanged { entity, index, value: old(self).options@[index as int] },
            ),
    {
        if self.disabled || index >= self.options.len() {
            return None;
        }
        self.selected = Some(index);
        self.is_open = false;
        Some(SelectChanged { entity, index, value: self.options[index].clone() })
    }

    /// The button's text: the selected option, or the placeholder.
    pub fn label_text(&self) -> (t: String)
        ensures
            t == match self.selected {
                Some(i) => if i < self.options@.len() {
                    self.options@[i as int]
                } else {
                    self.placeholder
                },
                None => self.placeholder,
            },
    {
        match self.selected {
            Some(i) => if i < self.options.len() {
                self.options[i].clone()
            } else {
                self.placeholder.clone()
            },
            None => self.placeholder.clone(),
        }
    }
}

} // verus!
