//! Tabs: the tab list, the active tab and the transition between two tabs,
//! arrow-key roving between tab buttons, and where each content panel
//! slides to.
use vstd::prelude::*;

verus! {

/// A single tab definition.
pub struct Tab {
    pub id: String,
    pub label: String,
}

impl Tab {
    /// A tab named `id`, showing `label`.
    pub fn new(id: String, label: String) -> (t: Self)
        ensures
            t.id == id,
            t.label == label,
    {
        Tab { id, label }
    }
}

/// Configuration of a tabs component.
pub struct TabsConfig {
    pub tabs: Vec<Tab>,
    pub active: usize,
}

impl TabsConfig {
    /// The given tabs with the first one active.
    pub fn new(tabs: Vec<Tab>) -> (c: Self)
        ensures
            c.tabs == tabs,
            c.active == 0,
    {
        TabsConfig { tabs, active: 0 }
    }

    /// Makes tab `active` the active one (not checked against the tabs).
    pub fn with_active(self, active: usize) -> (c: Self)
        ensures
            c.tabs == self.tabs,
            c.active == active,
    {
        TabsConfig { active, ..self }
    }

    /// The active tab, if the active index names one.
    pub fn active_tab(&self) -> (t: Option<&Tab>)
        ensures
            t == if self.active < self.tabs@.len() {
                Some(&self.tabs@[self.active as int])
            } else {
                None
            },
    {
        if self.active < self.tabs.len() {
            Some(&self.tabs[self.active])
        } else {
            None
        }
    }
}

/// A change of active tab still to be animated.
#[derive(Clone, Copy, Debug, PartialEq, Eq, Structural)]
pub struct TabTransition {
    pub from: usize,
    pub to: usize,
}

/// A tabs component: its configuration and the pending transition.
pub struct Tabs {
    pub config: TabsConfig,
    pub transition: Option<TabTransition>,
}

/// Reported whenever the active tab of `tabs` changes.
pub struct TabChanged {
    pub tabs: u64,
    pub index: usize,
    pub id: String,
}

impl Tabs {
    /// The given tabs with the first one active and nothing to animate.
    pub fn new(tabs: Vec<Tab>) -> (t: Self)
        ensures
            t.config.tabs == tabs,
            t.config.active == 0,
            t.transition is None,
    {
        Tabs { config: TabsConfig::new(tabs), transition: None }
    }

    /// The index of the active tab.
    pub fn active(&self) -> (a: usize)
        ensures
            a == self.config.active,
    {
        self.config.active
    }

    /// Activates tab `index`, recording the transition from the previously
    /// active tab. An index beyond the tabs is ignored; activating the
    /// active tab clears any pending transition.
    pub fn set_active(&mut self, index: usize)
        ensures
            final(self).config.tabs == old(self).config.tabs,
            index >= old(self).config.tabs@.len() ==> final(self).config.active == old(self).config.active && final(self).transition == old(self).transition,
            index < old(self).config.tabs@.len() && index == old(self).config.active ==> final(self).config.active == index && final(self).transition is None,
            index < old(self).config.tabs@.len() && index != old(self).config.active ==> final(self).config.active == index && final(self).transition == Some(
                TabTransition { from: old(self).config.active, to: index },
            ),
    {
        if index >= self.config.tabs.len() {
            return;
        }
        let previous = self.config.active;
        if previous == index {
            self.transition = None;
            return;
        }
        self.config.active = index;
        self.transition = Some(TabTransition { from: previous, to: index });
    }

    /// A tab button was pressed: a different tab becomes active and the
    /// change is reported.
    pub fn tab_pressed(&mut self, tabs_entity: u64, index: usize) -> (changed: Option<TabChanged>)
        ensures
            final(self).config.tabs == old(self).config.tabs,
            (index == old(self).config.active || index >= old(self).config.tabs@.len()) ==> {
                &&& final(self).config.active == old(self).config.active
                &&& final(self).transition == old(self).transition
                &&& changed is None
            },
            !(index == old(self).config.active || index >= old(self).config.tabs@.len()) ==> {
                &&& final(self).config.active == index
                &&& final(self).transition == Some(
                    TabTransition { from: old(self).config.active, to: index },
                )
                &&& changed == Some(
                    TabChanged {
                        tabs: tabs_entity,
                        index,
                        id: old(self).config.tabs@[index as int].id,
                    },
                )
            },
    {
        if self.config.active == index || index >= self.config.tabs.len() {
            return None;
        }
        self.set_active(index);
        Some(TabChanged { tabs: tabs_entity, index, id: self.config.tabs[index].id.clone() })
    }
}

/// The position reached from `position` among `len` items by one step
/// forward or back, wrapping around.
pub open spec fn spec_roving_next(position: int, len: int, forward: bool) -> int {
    if forward {
        (position + 1) % len
    } else {
        (position + len - 1) % len
    }
}

/// One roving-focus step from `position` among `len` items.
pub fn roving_next(position: usize, len: usize, forward: bool) -> (next: usize)
    requires
        position < len,
    ensures
        next == spec_roving_next(position as int, len as int, forward),
        next < len,
{
    proof {
        let l = len as int;
        let p = position as int;
        if p + 1 == l {
            vstd::arithmetic::div_mod::lemma_mod_self_0(l);
        } else {
            vstd::arithmetic::div_mod::lemma_small_mod((p + 1) as nat, l as nat);
        }
        if p == 0 {
            vstd::arithmetic::div_mod::lemma_small_mod((l - 1) as nat, l as nat);
        } else {
            vstd::arithmetic::div_mod::lemma_mod_add_multiples_vanish(p - 1, l);
            vstd::arithmetic::div_mod::lemma_small_mod((p - 1) as nat, l as nat);
        }
    }
    if forward {
        if position + 1 == len {
            0
        } else {
            position + 1
        }
    } else {
        if position == 0 {
            len - 1
        } else {
            position - 1
        }
    }
}

/// Stepping forward and then back returns to where one started.
pub proof fn lemma_roving_round_trip(position: int, len: int)
    requires
        0 <= position < len,
    ensures
        spec_roving_next(spec_roving_next(position, len, true), len, false) == position,
{
    if position + 1 == len {
        assert((position + 1) % len == 0) by {
            vstd::arithmetic::div_mod::lemma_mod_self_0(len);
        }
        assert((0 + len - 1) % len == len - 1) by {
            vstd::arithmetic::div_mod::lemma_small_mod((len - 1) as nat, len as nat);
        }
    } else {
        vstd::arithmetic::div_mod::lemma_small_mod((position + 1) as nat, len as nat);
        vstd::arithmetic::div_mod::lemma_mod_add_multiples_vanish(position, len);
        vstd::arithmetic::div_mod::lemma_small_mod(position as nat, len as nat);
    }
}

/// The tab buttons of one tabs component ordered by tab index, as
/// `(button, tab index)`.
pub open spec fn sorted_by_index(s: Seq<(u64, usize)>) -> bool {
    forall|i: int, j: int| 0 <= i < j < s.len() ==> s[i].1 <= s[j].1
}

/// Orders buttons by tab index, keeping equal indices in their order.
pub fn sort_by_index(buttons: &Vec<(u64, usize)>) -> (out: Vec<(u64, usize)>)
    ensures
        sorted_by_index(out@),
        out@.to_multiset() == buttons@.to_multiset(),
{
    let mut out: Vec<(u64, usize)> = Vec::new();
    let mut i: usize = 0;
    broadcast use vstd::seq_lib::group_to_multiset_ensures, vstd::multiset::group_multiset_axioms;
    while i < buttons.len()
        invariant
            i <= buttons.len(),
            sorted_by_index(out@),
            out@.to_multiset() == buttons@.take(i as int).to_multiset(),
        decreases buttons.len() - i,
    {
        let item = buttons[i];
        let mut k: usize = out.len();
        while k > 0 && out[k - 1].1 > item.1
            invariant
                k <= out.len(),
                sorted_by_index(out@),
                forall|j: int| k <= j < out@.len() ==> out@[j].1 > item.1,
            decreases k,
        {
            k -= 1;
        }
        let ghost before = out@;
        out.insert(k, item);
        proof {
            assert(out@ == before.insert(k as int, item));
            assert forall|a: int, b: int| 0 <= a < b < out@.len() implies out@[a].1 <= out@[b].1 by {
                if a < k && b == k {
                    assert(before[a].1 <= before[k - 1].1);
                }
            }
            let t = before.take(k as int);
            let u = before.skip(k as int);
            assert(out@ == t + (seq![item] + u));
            assert(t + u == before);
            assert(buttons@.take(i + 1) == buttons@.take(i as int) + seq![item]);
            vstd::seq_lib::lemma_multiset_commutative(t, seq![item] + u);
            vstd::seq_lib::lemma_multiset_commutative(seq![item], u);
            vstd::seq_lib::lemma_multiset_commutative(t, u);
            vstd::seq_lib::lemma_multiset_commutative(buttons@.take(i as int), seq![item]);
            assert(out@.to_multiset() =~= buttons@.take(i + 1).to_multiset());
        }
        i += 1;
    }
    proof {
        assert(buttons@.take(buttons.len() as int) == buttons@);
    }
    out
}

/// Arrow-key roving on a tab list: `siblings` are the buttons of the
/// focused button's tabs component ordered by tab index, `focused` the
/// focused button. With at least two buttons, focus moves to the next
/// (or previous) button, wrapping, and that tab becomes active if it was
/// not. Returns the change to report and the button to focus.
pub fn tabs_roving_nav(
    tabs: &mut Tabs,
    tabs_entity: u64,
    siblings: &Vec<(u64, usize)>,
    focused: u64,
    forward: bool,
) -> (r: (Option<TabChanged>, Option<u64>))
    ensures
        final(tabs).config.tabs == old(tabs).config.tabs,
        siblings@.len() < 2 || !(exists|p: int| 0 <= p < siblings@.len() && siblings@[p].0 == focused)
            ==> final(tabs).config.active == old(tabs).config.active && final(tabs).transition
            == old(tabs).transition && r.0 is None && r.1 is None,
        siblings@.len() >= 2 && (exists|p: int| 0 <= p < siblings@.len() && siblings@[p].0 == focused)
            ==> {
            let p = choose|p: int|
                0 <= p < siblings@.len() && siblings@[p].0 == focused && forall|q: int|
                    0 <= q < p ==> siblings@[q].0 != focused;
            let next = siblings@[spec_roving_next(p, siblings@.len() as int, forward)];
            &&& r.1 == Some(next.0)
            &&& next.1 == old(tabs).config.active ==> final(tabs).config.active == old(tabs).config.active && r.0 is None
            &&& next.1 != old(tabs).config.active && next.1 < old(tabs).config.tabs@.len()
                ==> final(tabs).config.active == next.1 && r.0 == Some(
                TabChanged {
                    tabs: tabs_entity,
                    index: next.1,
                    id: old(tabs).config.tabs@[next.1 as int].id,
                },
            )
            &&& next.1 != old(tabs).config.active && next.1 >= old(tabs).config.tabs@.len()
                ==> final(tabs).config.active == old(tabs).config.active && r.0 is None
        },
{
    let len = siblings.len();
    if len < 2 {
        return (None, None);
    }
    let mut position: usize = 0;
    while position < len && siblings[position].0 != focused
        invariant
            position <= len,
            len == siblings@.len(),
            forall|q: int| 0 <= q < position ==> siblings@[q].0 != focused,
        decreases len - position,
    {
        position += 1;
    }
    if position == len {
        return (None, None);
    }
    proof {
        let p = choose|p: int|
            0 <= p < siblings@.len() && siblings@[p].0 == focused && forall|q: int|
                0 <= q < p ==> siblings@[q].0 != focused;
        assert(siblings@[position as int].0 == focused);
        if p < position {
            assert(siblings@[p].0 != focused);
        }
        if p > position {
            assert(siblings@[position as int].0 != focused);
        }
        assert(p == position);
    }
    let next_position = roving_next(position, len, forward);
    let (next_entity, next_index) = siblings[next_position];
    let changed = if tabs.config.active != next_index {
        tabs.tab_pressed(tabs_entity, next_index)
    } else {
        None
    };
    (changed, Some(next_entity))
}

/// Where the content panel of tab `index` slides to, in percent of the
/// panel width: during a transition the new tab comes to 0, the old one
/// leaves towards the side opposite to the direction of travel, others
/// wait at 100; otherwise the active panel is at 0 and the others at 100.
pub fn zone_target_percent(index: usize, active: usize, transition: Option<TabTransition>)
    -> (percent: i32)
    ensures
        percent == match transition {
            Some(t) => if index == t.to {
                0i32
            } else if index == t.from {
                if t.to > t.from {
                    -100i32
                } else {
                    100i32
                }
            } else {
                100i32
            },
            None => if index == active {
                0i32
            } else {
                100i32
            },
        },
{
    match transition {
        Some(t) => {
            if index == t.to {
                0
            } else if index == t.from {
                if t.to > t.from {
                    -100
                } else {
                    100
                }
            } else {
                100
            }
        },
        None => {
            if index == active {
                0
            } else {
                100
            }
        },
    }
}

/// The tab button for `index` is a keyboard tab stop (only the active
/// one is) and is announced as selected.
pub fn tab_button_is_stop(index: usize, active: usize) -> (b: bool)
    ensures
        b == (index == active),
{
    index == active
}

} // verus!
