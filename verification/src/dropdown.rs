//! Dropdown: options, the open/selected/highlighted state, and how clicks
//! and the keyboard move it.
use vstd::prelude::*;

use crate::theme::ThemeSlot;

verus! {

/// One choice of a dropdown.
pub struct DropdownOption {
    pub label: String,
    pub value: String,
}

impl DropdownOption {
    /// An option showing `label` and reporting `value`.
    pub fn new(label: String, value: String) -> (o: Self)
        ensures
            o.label == label,
            o.value == value,
    {
        DropdownOption { label, value }
    }
}

/// How the dropdown menu enters and leaves.
#[derive(Clone, Copy, Debug, PartialEq, Eq, Structural)]
pub enum DropdownMenuAnimationKind {
    Fade,
    FallFromTrigger,
    ScaleInOut,
    SlideFromLeft,
    SlideFromRight,
}

/// Configuration of a dropdown.
pub struct DropdownConfig {
    pub placeholder: String,
    pub options: Vec<DropdownOption>,
    pub selected: Option<usize>,
    pub open_animation: DropdownMenuAnimationKind,
    pub close_animation: DropdownMenuAnimationKind,
}

impl DropdownConfig {
    /// A dropdown with the given placeholder, no options, nothing selected,
    /// fading in and out.
    pub fn new(placeholder: String) -> (c: Self)
        ensures
            c.placeholder == placeholder,
            c.options@.len() == 0,
            c.selected is None,
            c.open_animation == DropdownMenuAnimationKind::Fade,
            c.close_animation == DropdownMenuAnimationKind::Fade,
    {
        DropdownConfig {
            placeholder,
            options: Vec::new(),
            selected: None,
            open_animation: DropdownMenuAnimationKind::Fade,
            close_animation: DropdownMenuAnimationKind::Fade,
        }
    }

    /// Appends an option.
    pub fn option(self, label: String, value: String) -> (c: Self)
        ensures
            c.placeholder == self.placeholder,
            c.options@ == self.options@.push(DropdownOption { label, value }),
            c.selected == self.selected,
            c.open_animation == self.open_animation,
            c.close_animation == self.close_animation,
    {
        let mut c = self;
        c.options.push(DropdownOption::new(label, value));
        c
    }

    /// Selects the option at `index` initially.
    pub fn selected(self, index: usize) -> (c: Self)
        ensures
            c == (DropdownConfig { selected: Some(index), ..self }),
    {
        DropdownConfig { selected: Some(index), ..self }
    }

    /// Sets the opening animation.
    pub fn open_animation(self, animation: DropdownMenuAnimationKind) -> (c: Self)
        ensures
            c == (DropdownConfig { open_animation: animation, ..self }),
    {
        DropdownConfig { open_animation: animation, ..self }
    }

    /// Sets the closing animation.
    pub fn close_animation(self, animation: DropdownMenuAnimationKind) -> (c: Self)
        ensures
            c == (DropdownConfig { close_animation: animation, ..self }),
    {
        DropdownConfig { close_animation: animation, ..self }
    }
}

/// A dropdown's placeholder and options.
pub struct Dropdown {
    pub placeholder: String,
    pub options: Vec<DropdownOption>,
}

/// Which option is selected, which is highlighted, and whether the menu is
/// open.
#[derive(Clone, Copy, Debug, PartialEq, Eq, Structural)]
pub struct DropdownState {
    pub selected: Option<usize>,
    pub highlighted: Option<usize>,
    pub open: bool,
}

impl Default for DropdownState {
    fn default() -> (s: Self)
        ensures
            s == (DropdownState { selected: None, highlighted: None, open: false }),
    {
        DropdownState { selected: None, highlighted: None, open: false }
    }
}

/// The animations a dropdown's menu uses.
#[derive(Clone, Copy, Debug, PartialEq, Eq, Structural)]
pub struct DropdownAnimationProfile {
    pub open: DropdownMenuAnimationKind,
    pub close: DropdownMenuAnimationKind,
}

/// What a dropdown reports. `entity` identifies the dropdown.
pub enum DropdownEvent {
    Opened { entity: u64 },
    Closed { entity: u64 },
    Changed { entity: u64, index: usize, value: String },
}

/// `index` names an option of a dropdown with `count` options.
pub open spec fn names_option(index: Option<usize>, count: nat) -> bool {
    index matches Some(i) ==> i < count
}

impl DropdownState {
    /// Selected and highlighted indices name existing options.
    pub open spec fn wf(&self, count: nat) -> bool {
        names_option(self.selected, count) && names_option(self.highlighted, count)
    }
}

/// `index` if it names one of `count` options, else nothing.
pub open spec fn clamp_index(index: Option<usize>, count: nat) -> Option<usize> {
    match index {
        Some(i) => if i < count {
            Some(i)
        } else {
            None
        },
        None => None,
    }
}

impl Dropdown {
    /// The dropdown, initial state and animation profile a configuration
    /// creates: a selection outside the options is dropped, the selection
    /// is highlighted, and the menu starts closed.
    pub fn from_config(config: DropdownConfig) -> (r: (Dropdown, DropdownState, DropdownAnimationProfile))
        ensures
            r.0.placeholder == config.placeholder,
            r.0.options@ == config.options@,
            r.1 == (DropdownState {
                selected: clamp_index(config.selected, config.options@.len()),
                highlighted: clamp_index(config.selected, config.options@.len()),
                open: false,
            }),
            r.1.wf(r.0.options@.len()),
            r.2 == (DropdownAnimationProfile {
                open: config.open_animation,
                close: config.close_animation,
            }),
    {
        let selected = match config.selected {
            Some(i) => if i < config.options.len() {
                Some(i)
            } else {
                None
            },
            None => None,
        };
        (
            Dropdown { placeholder: config.placeholder, options: config.options },
            DropdownState { selected, highlighted: selected, open: false },
            DropdownAnimationProfile { open: config.open_animation, close: config.close_animation },
        )
    }

    /// The trigger's text: the selected option's label, or the placeholder.
    pub fn label_text(&self, state: &DropdownState) -> (t: &String)
        ensures
            t == match state.selected {
                Some(i) => if i < self.options@.len() {
                    self.options@[i as int].label
                } else {
                    self.placeholder
                },
                None => self.placeholder,
            },
    {
        match state.selected {
            Some(i) => if i < self.options.len() {
                &self.options[i].label
            } else {
                &self.placeholder
            },
            None => &self.placeholder,
        }
    }

    /// The trigger shows the placeholder (muted) rather than a selection.
    pub fn shows_placeholder(&self, state: &DropdownState) -> (b: bool)
        ensures
            b == !(state.selected matches Some(i) && i < self.options@.len()),
    {
        match state.selected {
            Some(i) => i >= self.options.len(),
            None => true,
        }
    }
}

/// The colour of the trigger's text: muted while it shows the
/// placeholder.
pub fn label_slot(dropdown: &Dropdown, state: &DropdownState) -> (slot: ThemeSlot)
    ensures
        slot == if state.selected matches Some(i) && i < dropdown.options@.len() {
            ThemeSlot::Text
        } else {
            ThemeSlot::TextMuted
        },
{
    if dropdown.shows_placeholder(state) {
        ThemeSlot::TextMuted
    } else {
        ThemeSlot::Text
    }
}

/// The trigger's arrow: a feather chevron pointing up in the text colour
/// while the menu is open, down and muted while it is closed.
pub fn arrow_icon(state: &DropdownState) -> (r: (&'static str, ThemeSlot))
    ensures
        r.0@ == (if state.open {
            "chevron-up"@
        } else {
            "chevron-down"@
        }),
        r.1 == (if state.open {
            ThemeSlot::Text
        } else {
            ThemeSlot::TextMuted
        }),
{
    if state.open {
        ("chevron-up", ThemeSlot::Text)
    } else {
        ("chevron-down", ThemeSlot::TextMuted)
    }
}

/// The option at `index` is drawn active: the highlighted one while the
/// menu is open, the selected one while it is closed.
pub fn option_active(state: &DropdownState, index: usize) -> (b: bool)
    ensures
        b == if state.open {
            state.highlighted == Some(index)
        } else {
            state.selected == Some(index)
        },
{
    if state.open {
        state.highlighted == Some(index)
    } else {
        state.selected == Some(index)
    }
}

/// The trigger was pressed: the menu toggles. Opening highlights the
/// selection (or the first option); closing highlights the selection.
pub fn dropdown_surface_pressed(
    dropdown: &Dropdown,
    state: &mut DropdownState,
    entity: u64,
) -> (event: DropdownEvent)
    ensures
        final(state).open == !old(state).open,
        final(state).selected == old(state).selected,
        final(state).highlighted == if final(state).open {
            match old(state).selected {
                Some(i) => Some(i),
                None => if dropdown.options@.len() > 0 {
                    Some(0usize)
                } else {
                    None
                },
            }
        } else {
            old(state).selected
        },
        event == if final(state).open {
            DropdownEvent::Opened { entity }
        } else {
            DropdownEvent::Closed { entity }
        },
        old(state).wf(dropdown.options@.len()) ==> final(state).wf(dropdown.options@.len()),
{
    state.open = !state.open;
    if state.open {
        state.highlighted = match state.selected {
            Some(i) => Some(i),
            None => if dropdown.options.len() > 0 {
                Some(0)
            } else {
                None
            },
        };
        DropdownEvent::Opened { entity }
    } else {
        state.highlighted = state.selected;
        DropdownEvent::Closed { entity }
    }
}

/// The option at `index` was pressed: it becomes selected and highlighted,
/// an open menu closes, and the change is reported. A press on an index
/// beyond the options does nothing.
pub fn dropdown_option_pressed(
    dropdown: &Dropdown,
    state: &mut DropdownState,
    entity: u64,
    index: usize,
) -> (events: Vec<DropdownEvent>)
    ensures
        index >= dropdown.options@.len() ==> *final(state) == *old(state) && events@.len() == 0,
        index < dropdown.options@.len() ==> {
            &&& *final(state) == (DropdownState {
                selected: Some(index),
                highlighted: Some(index),
                open: false,
            })
            &&& events@ == if old(state).open {
                seq![
                    DropdownEvent::Closed { entity },
                    DropdownEvent::Changed { entity, index, value: dropdown.options@[index as int].value },
                ]
            } else {
                seq![DropdownEvent::Changed { entity, index, value: dropdown.options@[index as int].value }]
            }
        },
{
    let mut events: Vec<DropdownEvent> = Vec::new();
    if index >= dropdown.options.len() {
        return events;
    }
    state.selected = Some(index);
    state.highlighted = Some(index);
    if state.open {
        state.open = false;
        events.push(DropdownEvent::Closed { entity });
    }
    events.push(
        DropdownEvent::Changed { entity, index, value: dropdown.options[index].value.clone() },
    );
    events
}

/// A click landed outside every dropdown: an open menu closes and its
/// highlight returns to the selection.
pub fn dropdown_click_outside(state: &mut DropdownState, entity: u64)
    -> (event: Option<DropdownEvent>)
    ensures
        !old(state).open ==> *final(state) == *old(state) && event is None,
        old(state).open ==> *final(state) == (DropdownState {
            open: false,
            highlighted: old(state).selected,
            ..*old(state)
        }) && event == Some(DropdownEvent::Closed { entity }),
{
    if !state.open {
        return None;
    }
    state.open = false;
    state.highlighted = state.selected;
    Some(DropdownEvent::Closed { entity })
}

/// A keyboard key as the dropdown distinguishes it.
#[derive(Clone, Copy, Debug, PartialEq, Eq, Structural)]
pub enum DropdownKey {
    ArrowDown,
    ArrowUp,
    Enter,
    Space,
    Escape,
    Other,
}

/// One keyboard event delivered to the focused dropdown.
#[derive(Clone, Copy, Debug, PartialEq, Eq, Structural)]
pub struct DropdownKeyEvent {
    /// The key went down (releases are ignored).
    pub pressed: bool,
    pub key: DropdownKey,
}

/// State and reports after one key event on a dropdown with `options`.
pub open spec fn dropdown_key_step(
    options: Seq<DropdownOption>,
    s: DropdownState,
    entity: u64,
    ev: DropdownKeyEvent,
) -> (DropdownState, Seq<DropdownEvent>) {
    let n = options.len();
    if !ev.pressed {
        (s, Seq::empty())
    } else {
        match ev.key {
            DropdownKey::ArrowDown => if !s.open {
                (
                    DropdownState {
                        open: true,
                        highlighted: match s.selected {
                            Some(i) => Some(i),
                            None => Some(0usize),
                        },
                        ..s
                    },
                    seq![DropdownEvent::Opened { entity }],
                )
            } else {
                (
                    DropdownState {
                        highlighted: match s.highlighted {
                            Some(c) => Some(((c + 1) % (n as int)) as usize),
                            None => Some(0usize),
                        },
                        ..s
                    },
                    Seq::empty(),
                )
            },
            DropdownKey::ArrowUp => if !s.open {
                (
                    DropdownState {
                        open: true,
                        highlighted: match s.selected {
                            Some(i) => Some(i),
                            None => Some((n - 1) as usize),
                        },
                        ..s
                    },
                    seq![DropdownEvent::Opened { entity }],
                )
            } else {
                (
                    DropdownState {
                        highlighted: match s.highlighted {
                            Some(c) => if c == 0 {
                                Some((n - 1) as usize)
                            } else {
                                Some((c - 1) as usize)
                            },
                            None => Some((n - 1) as usize),
                        },
                        ..s
                    },
                    Seq::empty(),
                )
            },
            DropdownKey::Enter | DropdownKey::Space => if !s.open {
                (
                    DropdownState {
                        open: true,
                        highlighted: match s.selected {
                            Some(i) => Some(i),
                            None => Some(0usize),
                        },
                        ..s
                    },
                    seq![DropdownEvent::Opened { entity }],
                )
            } else {
                match s.highlighted {
                    Some(i) => if i < n {
                        (
                            DropdownState { selected: Some(i), highlighted: Some(i), open: false },
                            seq![
                                DropdownEvent::Changed { entity, index: i, value: options[i as int].value },
                                DropdownEvent::Closed { entity },
                            ],
                        )
                    } else {
                        (
                            DropdownState { highlighted: s.selected, open: false, ..s },
                            seq![DropdownEvent::Closed { entity }],
                        )
                    },
                    None => (
                        DropdownState { highlighted: s.selected, open: false, ..s },
                        seq![DropdownEvent::Closed { entity }],
                    ),
                }
            },
            DropdownKey::Escape => if !s.open {
                (s, Seq::empty())
            } else {
                (
                    DropdownState { highlighted: s.selected, open: false, ..s },
                    seq![DropdownEvent::Closed { entity }],
                )
            },
            DropdownKey::Other => (s, Seq::empty()),
        }
    }
}

/// State and reports after a run of key events.
pub open spec fn dropdown_key_steps(
    options: Seq<DropdownOption>,
    s: DropdownState,
    entity: u64,
    evs: Seq<DropdownKeyEvent>,
) -> (DropdownState, Seq<DropdownEvent>)
    decreases evs.len(),
{
    if evs.len() == 0 {
        (s, Seq::empty())
    } else {
        let before = dropdown_key_steps(options, s, entity, evs.drop_last());
        let after = dropdown_key_step(options, before.0, entity, evs.last());
        (after.0, before.1 + after.1)
    }
}

/// Applies the key events delivered to the focused dropdown `entity` in
/// one frame. Arrow keys open the menu or move the highlight (wrapping);
/// Enter/Space open it or commit the highlight and close; Escape closes.
/// A dropdown without options ignores the keyboard.
pub fn dropdown_keyboard_navigation(
    dropdown: &Dropdown,
    state: &mut DropdownState,
    entity: u64,
    events: &Vec<DropdownKeyEvent>,
) -> (out: Vec<DropdownEvent>)
    ensures
        dropdown.options@.len() == 0 ==> *final(state) == *old(state) && out@.len() == 0,
        dropdown.options@.len() > 0 ==> ({
            let r = dropdown_key_steps(dropdown.options@, *old(state), entity, events@);
            *final(state) == r.0 && out@ == r.1
        }),
{
    let mut out: Vec<DropdownEvent> = Vec::new();
    let n = dropdown.options.len();
    if n == 0 {
        return out;
    }
    let ghost s0 = *state;
    let mut i: usize = 0;
    proof {
        assert(events@.take(0) == Seq::<DropdownKeyEvent>::empty());
    }
    while i < events.len()
        invariant
            i <= events.len(),
            n == dropdown.options@.len(),
            n > 0,
            ({
                let r = dropdown_key_steps(dropdown.options@, s0, entity, events@.take(i as int));
                *state == r.0 && out@ == r.1
            }),
        decreases events.len() - i,
    {
        let ev = events[i];
        let ghost before_out = out@;
        let ghost step = dropdown_key_step(dropdown.options@, *state, entity, ev);
        let ghost old_state = *state;
        proof {
            assert(events@.take(i + 1).drop_last() == events@.take(i as int));
            assert(events@.take(i + 1).last() == ev);
        }
        if ev.pressed {
            match ev.key {
                DropdownKey::ArrowDown => {
                    if !state.open {
                        state.open = true;
                        state.highlighted = match state.selected {
                            Some(i) => Some(i),
                            None => Some(0),
                        };
                        out.push(DropdownEvent::Opened { entity });
                    } else {
                        state.highlighted = match state.highlighted {
                            Some(c) => Some((c % n + 1) % n),
                            None => Some(0),
                        };
                        proof {
                            if let Some(c) = old_state.highlighted {
                                lemma_succ_mod(c as int, n as int);
                            }
                        }
                    }
                },
                DropdownKey::ArrowUp => {
                    if !state.open {
                        state.open = true;
                        state.highlighted = match state.selected {
                            Some(i) => Some(i),
                            None => Some(n - 1),
                        };
                        out.push(DropdownEvent::Opened { entity });
                    } else {
                        state.highlighted = match state.highlighted {
                            Some(c) => if c == 0 {
                                Some(n - 1)
                            } else {
                                Some(c - 1)
                            },
                            None => Some(n - 1),
                        };
                    }
                },
                DropdownKey::Enter | DropdownKey::Space => {
                    if !state.open {
                        state.open = true;
                        state.highlighted = match state.selected {
                            Some(i) => Some(i),
                            None => Some(0),
                        };
                        out.push(DropdownEvent::Opened { entity });
                    } else {
                        match state.highlighted {
                            Some(idx) => {
                                if idx < n {
                                    state.selected = Some(idx);
                                    out.push(
                                        DropdownEvent::Changed {
                                            entity,
                                            index: idx,
                                            value: dropdown.options[idx].value.clone(),
                                        },
                                    );
                                }
                            },
                            None => {},
                        }
                        state.open = false;
                        state.highlighted = state.selected;
                        out.push(DropdownEvent::Closed { entity });
                    }
                },
                DropdownKey::Escape => {
                    if state.open {
                        state.open = false;
                        state.highlighted = state.selected;
                        out.push(DropdownEvent::Closed { entity });
                    }
                },
                DropdownKey::Other => {},
            }
        }
        proof {
            assert(*state == step.0);
            assert(out@ == before_out + step.1);
        }
        i += 1;
    }
    proof {
        assert(events@.take(events.len() as int) == events@);
    }
    out
}

proof fn lemma_succ_mod(c: int, n: int)
    requires
        c >= 0,
        n > 0,
    ensures
        (c % n + 1) % n == (c + 1) % n,
{
    vstd::arithmetic::div_mod::lemma_add_mod_noop(c, 1, n);
    vstd::arithmetic::div_mod::lemma_mod_twice(c, n);
    if n == 1 {
        assert((c % 1 + 1) % 1 == 0);
        assert((c + 1) % 1 == 0);
    } else {
        vstd::arithmetic::div_mod::lemma_small_mod(1, n as nat);
    }
}

/// The keyboard keeps selection and highlight on existing options.
pub proof fn lemma_keyboard_keeps_indices_valid(
    options: Seq<DropdownOption>,
    s: DropdownState,
    entity: u64,
    evs: Seq<DropdownKeyEvent>,
)
    requires
        options.len() > 0,
        s.wf(options.len()),
    ensures
        dropdown_key_steps(options, s, entity, evs).0.wf(options.len()),
    decreases evs.len(),
{
    if evs.len() > 0 {
        lemma_keyboard_keeps_indices_valid(options, s, entity, evs.drop_last());
    }
}

/// Whenever a key closes the menu, the highlight rests on the
/// selection.
pub proof fn lemma_closing_highlights_selection(
    options: Seq<DropdownOption>,
    s: DropdownState,
    entity: u64,
    ev: DropdownKeyEvent,
)
    requires
        s.open,
        !dropdown_key_step(options, s, entity, ev).0.open,
    ensures
        dropdown_key_step(options, s, entity, ev).0.highlighted == dropdown_key_step(
            options,
            s,
            entity,
            ev,
        ).0.selected,
{
}


/// On an open menu of `n` options with option `i` highlighted, ArrowDown
/// highlights the next option and ArrowUp the previous one, wrapping
/// around at either end; neither changes the selection, closes the menu or
/// reports anything. ArrowDown followed by ArrowUp returns the highlight to
/// option `i`.
pub proof fn lemma_arrows_move_highlight(
    options: Seq<DropdownOption>,
    s: DropdownState,
    entity: u64,
    i: usize,
    down: DropdownKeyEvent,
    up: DropdownKeyEvent,
)
    requires
        0 < options.len() <= usize::MAX,
        s.open,
        s.highlighted == Some(i),
        i < options.len(),
        down.pressed,
        down.key == DropdownKey::ArrowDown,
        up.pressed,
        up.key == DropdownKey::ArrowUp,
    ensures
        ({
            let n = options.len() as int;
            let d = dropdown_key_steps(options, s, entity, seq![down]);
            let u = dropdown_key_steps(options, s, entity, seq![up]);
            let du = dropdown_key_steps(options, s, entity, seq![down, up]);
            &&& d.0 == (DropdownState { highlighted: Some(((i + 1) % n) as usize), ..s })
            &&& u.0 == (DropdownState { highlighted: Some(((i + n - 1) % n) as usize), ..s })
            &&& d.1.len() == 0
            &&& u.1.len() == 0
            &&& du.0 == s
            &&& du.1.len() == 0
        }),
{
    let n = options.len() as int;
    let e = dropdown_key_steps(options, s, entity, Seq::<DropdownKeyEvent>::empty());
    assert(e == (s, Seq::<DropdownEvent>::empty()));
    assert(seq![down].drop_last() =~= Seq::<DropdownKeyEvent>::empty());
    assert(seq![down].last() == down);
    assert(seq![up].drop_last() =~= Seq::<DropdownKeyEvent>::empty());
    assert(seq![up].last() == up);
    assert(seq![down, up].drop_last() =~= seq![down]);
    assert(seq![down, up].last() == up);
    // ArrowUp: the previous option, wrapping from the first to the last.
    vstd::arithmetic::div_mod::lemma_mod_add_multiples_vanish(i - 1, n);
    if i == 0 {
        vstd::arithmetic::div_mod::lemma_small_mod((n - 1) as nat, n as nat);
    } else {
        vstd::arithmetic::div_mod::lemma_small_mod((i - 1) as nat, n as nat);
    }
    assert((i + n - 1) % n == if i == 0 { n - 1 } else { i - 1 });
    // ArrowDown: the next option, wrapping from the last to the first.
    if i + 1 < n {
        vstd::arithmetic::div_mod::lemma_small_mod((i + 1) as nat, n as nat);
    } else {
        vstd::arithmetic::div_mod::lemma_mod_self_0(n);
    }
    let d = dropdown_key_steps(options, s, entity, seq![down]);
    assert(d.1 =~= Seq::<DropdownEvent>::empty());
    let u = dropdown_key_steps(options, s, entity, seq![up]);
    assert(u.1 =~= Seq::<DropdownEvent>::empty());
    let du = dropdown_key_steps(options, s, entity, seq![down, up]);
    assert(du.1 =~= Seq::<DropdownEvent>::empty());
}

} // verus!
