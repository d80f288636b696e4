//! Pagination: the page state and its navigation actions, the window of
//! numbered page buttons, and what each button shows.
use vstd::prelude::*;

verus! {

/// Current pagination state. Pages are numbered from 1.
#[derive(Clone, Copy, Debug, PartialEq, Eq, Structural)]
pub struct PaginationState {
    /// Current page, 1-indexed.
    pub current_page: usize,
    /// Number of records displayed per page.
    pub page_size: usize,
    /// Total number of pages.
    pub total_pages: usize,
}

/// `max(1, n)`.
pub open spec fn at_least_one(n: usize) -> usize {
    if n < 1 {
        1
    } else {
        n
    }
}

impl PaginationState {
    /// The state is consistent: at least one page, a non-empty page size,
    /// and the current page among the pages.
    pub open spec fn wf(&self) -> bool {
        &&& 1 <= self.current_page <= self.total_pages
        &&& self.page_size >= 1
    }

    /// A state on page 1; a page size or page count of zero counts as one.
    pub fn new(page_size: usize, total_pages: usize) -> (s: Self)
        ensures
            s.current_page == 1,
            s.page_size == at_least_one(page_size),
            s.total_pages == at_least_one(total_pages),
            s.wf(),
    {
        PaginationState {
            current_page: 1,
            page_size: if page_size < 1 { 1 } else { page_size },
            total_pages: if total_pages < 1 { 1 } else { total_pages },
        }
    }

    /// There is a page before the current one.
    pub fn has_previous(&self) -> (b: bool)
        ensures
            b == (self.current_page > 1),
    {
        self.current_page > 1
    }

    /// There is a page after the current one.
    pub fn has_next(&self) -> (b: bool)
        ensures
            b == (self.current_page < self.total_pages),
    {
        self.current_page < self.total_pages
    }

    /// Goes to page 1.
    pub fn first_page(&mut self)
        ensures
            *final(self) == (PaginationState { current_page: 1, ..*old(self) }),
    {
        self.current_page = 1;
    }

    /// Goes to the last page.
    pub fn last_page(&mut self)
        ensures
            *final(self) == (PaginationState { current_page: old(self).total_pages, ..*old(self) }),
    {
        self.current_page = self.total_pages;
    }

    /// Goes back one page, if there is one.
    pub fn previous_page(&mut self)
        ensures
            *final(self) == (PaginationState {
                current_page: if old(self).current_page > 1 {
                    (old(self).current_page - 1) as usize
                } else {
                    old(self).current_page
                },
                ..*old(self)
            }),
    {
        if self.has_previous() {
            self.current_page = self.current_page - 1;
        }
    }

    /// Goes forward one page, if there is one.
    pub fn next_page(&mut self)
        ensures
            *final(self) == (PaginationState {
                current_page: if old(self).current_page < old(self).total_pages {
                    (old(self).current_page + 1) as usize
                } else {
                    old(self).current_page
                },
                ..*old(self)
            }),
    {
        if self.has_next() {
            self.current_page = self.current_page + 1;
        }
    }

    /// Goes to `page`, clamped to `1..=total_pages`.
    pub fn set_page(&mut self, page: usize)
        requires
            old(self).total_pages >= 1,
        ensures
            *final(self) == (PaginationState {
                current_page: if page < 1 {
                    1
                } else if page > old(self).total_pages {
                    old(self).total_pages
                } else {
                    page
                },
                ..*old(self)
            }),
    {
        self.current_page = if page < 1 {
            1
        } else if page > self.total_pages {
            self.total_pages
        } else {
            page
        };
    }

    /// Sets the page size; zero counts as one.
    pub fn set_page_size(&mut self, page_size: usize)
        ensures
            *final(self) == (PaginationState { page_size: at_least_one(page_size), ..*old(self) }),
    {
        self.page_size = if page_size < 1 { 1 } else { page_size };
    }

    /// Sets the page count (zero counts as one), moving back to the new
    /// last page if the current page no longer exists.
    pub fn set_total_pages(&mut self, total_pages: usize)
        ensures
            final(self).total_pages == at_least_one(total_pages),
            final(self).page_size == old(self).page_size,
            final(self).current_page == if old(self).current_page > at_least_one(total_pages) {
                at_least_one(total_pages)
            } else {
                old(self).current_page
            },
    {
        self.total_pages = if total_pages < 1 { 1 } else { total_pages };
        if self.current_page > self.total_pages {
            self.current_page = self.total_pages;
        }
    }
}

/// Identifies a pagination action.
#[derive(Clone, Copy, Debug, PartialEq, Eq, Structural)]
pub enum PaginationAction {
    First,
    Previous,
    Next,
    Last,
    Page(usize),
}

/// Reported whenever a pagination's page changes.
#[derive(Clone, Copy, Debug, PartialEq, Eq, Structural)]
pub struct PaginationEvent {
    /// The pagination that changed.
    pub entity: u64,
    /// New page number.
    pub page: usize,
    /// Current page size.
    pub page_size: usize,
    /// What caused the change.
    pub action: PaginationAction,
}

/// The page an action leads to from `s`.
pub open spec fn page_after(s: PaginationState, action: PaginationAction) -> usize {
    match action {
        PaginationAction::First => 1,
        PaginationAction::Previous => if s.current_page > 1 {
            (s.current_page - 1) as usize
        } else {
            s.current_page
        },
        PaginationAction::Next => if s.current_page < s.total_pages {
            (s.current_page + 1) as usize
        } else {
            s.current_page
        },
        PaginationAction::Last => s.total_pages,
        PaginationAction::Page(p) => if p < 1 {
            1
        } else if p > s.total_pages {
            s.total_pages
        } else {
            p
        },
    }
}

/// Applies a pressed pagination button's action to the state of pagination
/// `entity`. A disabled button does nothing. An event is reported only
/// when the page actually changed.
pub fn pagination_button_pressed(
    state: &mut PaginationState,
    entity: u64,
    action: PaginationAction,
    disabled: bool,
) -> (event: Option<PaginationEvent>)
    requires
        old(state).total_pages >= 1,
    ensures
        disabled ==> *final(state) == *old(state) && event is None,
        !disabled ==> *final(state) == (PaginationState {
            current_page: page_after(*old(state), action),
            ..*old(state)
        }),
        !disabled ==> event == if page_after(*old(state), action) == old(state).current_page {
            None
        } else {
            Some(
                PaginationEvent {
                    entity,
                    page: page_after(*old(state), action),
                    page_size: old(state).page_size,
                    action,
                },
            )
        },
{
    if disabled {
        return None;
    }
    let old_page = state.current_page;
    match action {
        PaginationAction::First => state.first_page(),
        PaginationAction::Previous => state.previous_page(),
        PaginationAction::Next => state.next_page(),
        PaginationAction::Last => state.last_page(),
        PaginationAction::Page(page) => state.set_page(page),
    }
    if state.current_page == old_page {
        None
    } else {
        Some(
            PaginationEvent {
                entity,
                page: state.current_page,
                page_size: state.page_size,
                action,
            },
        )
    }
}

/// Every action keeps a consistent state consistent.
pub proof fn lemma_actions_keep_state_consistent(s: PaginationState, action: PaginationAction)
    requires
        s.wf(),
    ensures
        (PaginationState { current_page: page_after(s, action), ..s }).wf(),
{
}

/// Going to the next page and then back returns to the page one
/// started from, unless one was already on the last page.
pub proof fn lemma_next_then_previous(s: PaginationState)
    requires
        s.wf(),
        s.current_page < s.total_pages,
    ensures
        page_after(
            PaginationState { current_page: page_after(s, PaginationAction::Next), ..s },
            PaginationAction::Previous,
        ) == s.current_page,
{
}

/// Configuration of a pagination.
#[derive(Clone, Copy, Debug, PartialEq, Eq, Structural)]
pub struct PaginationConfig {
    pub page_size: usize,
    pub total_pages: usize,
    /// Show first/last buttons.
    pub show_first_last: bool,
    /// Show numbered page buttons.
    pub show_page_numbers: bool,
    /// Maximum number of page buttons shown at once.
    pub max_page_buttons: usize,
}

impl Default for PaginationConfig {
    fn default() -> (c: Self)
        ensures
            c == (PaginationConfig {
                page_size: 25,
                total_pages: 1,
                show_first_last: true,
                show_page_numbers: true,
                max_page_buttons: 7,
            }),
    {
        PaginationConfig {
            page_size: 25,
            total_pages: 1,
            show_first_last: true,
            show_page_numbers: true,
            max_page_buttons: 7,
        }
    }
}

/// The display options a pagination keeps from its configuration.
#[derive(Clone, Copy, Debug, PartialEq, Eq, Structural)]
pub struct PaginationStyleConfig {
    pub show_first_last: bool,
    pub show_page_numbers: bool,
    pub max_page_buttons: usize,
}

impl PaginationConfig {
    /// The state a new pagination starts in.
    pub fn initial_state(&self) -> (s: PaginationState)
        ensures
            s == (PaginationState {
                current_page: 1,
                page_size: at_least_one(self.page_size),
                total_pages: at_least_one(self.total_pages),
            }),
            s.wf(),
    {
        PaginationState::new(self.page_size, self.total_pages)
    }

    /// The display options kept from the configuration (at least one page
    /// button).
    pub fn style(&self) -> (s: PaginationStyleConfig)
        ensures
            s == (PaginationStyleConfig {
                show_first_last: self.show_first_last,
                show_page_numbers: self.show_page_numbers,
                max_page_buttons: at_least_one(self.max_page_buttons),
            }),
    {
        PaginationStyleConfig {
            show_first_last: self.show_first_last,
            show_page_numbers: self.show_page_numbers,
            max_page_buttons: if self.max_page_buttons < 1 { 1 } else { self.max_page_buttons },
        }
    }
}

/// The first page number shown by `visible_buttons` numbered buttons.
pub open spec fn spec_page_window_start(
    current_page: usize,
    total_pages: usize,
    visible_buttons: usize,
) -> usize {
    if total_pages <= visible_buttons {
        1
    } else {
        let half = visible_buttons / 2;
        let start = if current_page > half {
            (current_page - half) as usize
        } else {
            0
        };
        let start = if start < 1 {
            1
        } else {
            start
        };
        let max_start = if total_pages - visible_buttons + 1 > usize::MAX {
            usize::MAX
        } else {
            (total_pages - visible_buttons + 1) as usize
        };
        if start > max_start {
            max_start
        } else {
            start
        }
    }
}

/// The first page number shown by `visible_buttons` numbered buttons:
/// the window is centred on the current page as far as the page range
/// allows.
pub fn page_window_start(current_page: usize, total_pages: usize, visible_buttons: usize)
    -> (start: usize)
    ensures
        start == spec_page_window_start(current_page, total_pages, visible_buttons),
{
    if total_pages <= visible_buttons {
        return 1;
    }
    let half = visible_buttons / 2;
    let mut start = current_page.saturating_sub(half);
    if start < 1 {
        start = 1;
    }
    let max_start = (total_pages - visible_buttons).saturating_add(1);
    if start > max_start {
        start = max_start;
    }
    if start < 1 {
        1
    } else {
        start
    }
}

/// The numbered buttons show consecutive pages that all exist, and
/// the current page is among them.
pub proof fn lemma_page_window_covers_current(
    current_page: usize,
    total_pages: usize,
    visible_buttons: usize,
)
    requires
        1 <= current_page <= total_pages,
        1 <= visible_buttons <= total_pages,
    ensures
        ({
            let start = spec_page_window_start(current_page, total_pages, visible_buttons);
            &&& 1 <= start
            &&& start + visible_buttons - 1 <= total_pages
            &&& start <= current_page <= start + visible_buttons - 1
        }),
{
}

/// The window of numbered buttons is centred on the current page: it
/// starts `visible_buttons / 2` pages before it unless that would leave
/// the page range, in which case it is pushed against the first page or
/// the last one; with no more pages than buttons it starts at page 1.
pub proof fn lemma_page_window_is_centred(
    current_page: usize,
    total_pages: usize,
    visible_buttons: usize,
)
    requires
        1 <= current_page <= total_pages,
    ensures
        ({
            let start = spec_page_window_start(current_page, total_pages, visible_buttons);
            let half = visible_buttons / 2;
            &&& total_pages <= visible_buttons ==> start == 1
            &&& total_pages > visible_buttons && half < current_page && current_page - half
                + visible_buttons - 1 <= total_pages ==> start == current_page - half
            &&& total_pages > visible_buttons && current_page <= half ==> start == 1
            &&& total_pages > visible_buttons && half < current_page && current_page - half
                + visible_buttons - 1 > total_pages ==> start == total_pages - visible_buttons
                + 1
        }),
{
}

/// The role of one pagination button.
#[derive(Clone, Copy, Debug, PartialEq, Eq, Structural)]
pub enum PaginationButtonRole {
    First,
    Previous,
    Next,
    Last,
    /// The numbered button in this slot (from 0).
    PageSlot(usize),
}

/// What a pagination button shows and does for the current state.
#[derive(Clone, Copy, Debug, PartialEq, Eq, Structural)]
pub struct PaginationButtonView {
    pub hidden: bool,
    pub disabled: bool,
    /// The action a press performs.
    pub action: PaginationAction,
    /// The button is the current page's numbered button.
    pub active_page: bool,
    /// The keyboard tab stop: `-1` when hidden or disabled.
    pub tab_index: i32,
}

/// The number of numbered buttons shown.
pub open spec fn spec_visible_buttons(state: PaginationState, style: PaginationStyleConfig) -> usize {
    let max = at_least_one(style.max_page_buttons);
    if state.total_pages < max {
        state.total_pages
    } else {
        max
    }
}

/// What the button with `role` shows for `state`.
pub fn pagination_button_view(
    role: PaginationButtonRole,
    state: &PaginationState,
    style: &PaginationStyleConfig,
) -> (v: PaginationButtonView)
    ensures
        v.tab_index == if v.hidden || v.disabled {
            -1i32
        } else {
            0i32
        },
        match role {
            PaginationButtonRole::First => v.hidden == !style.show_first_last && v.action
                == PaginationAction::First && v.disabled == !(state.current_page > 1)
                && !v.active_page,
            PaginationButtonRole::Previous => !v.hidden && v.action == PaginationAction::Previous
                && v.disabled == !(state.current_page > 1) && !v.active_page,
            PaginationButtonRole::Next => !v.hidden && v.action == PaginationAction::Next
                && v.disabled == !(state.current_page < state.total_pages) && !v.active_page,
            PaginationButtonRole::Last => v.hidden == !style.show_first_last && v.action
                == PaginationAction::Last && v.disabled == !(state.current_page
                < state.total_pages) && !v.active_page,
            PaginationButtonRole::PageSlot(slot) => if !style.show_page_numbers || slot
                >= spec_visible_buttons(*state, *style) {
                v.hidden && v.disabled && v.action == PaginationAction::Page(1) && !v.active_page
            } else {
                let page = spec_page_window_start(
                    state.current_page,
                    state.total_pages,
                    spec_visible_buttons(*state, *style),
                ) + slot;
                &&& page <= usize::MAX
                &&& !v.hidden
                &&& !v.disabled
                &&& v.action == PaginationAction::Page(page as usize)
                &&& v.active_page == (page == state.current_page)
            },
        },
{
    let max = if style.max_page_buttons < 1 { 1 } else { style.max_page_buttons };
    let visible_buttons = if state.total_pages < max { state.total_pages } else { max };
    let start = page_window_start(state.current_page, state.total_pages, visible_buttons);
    let mut hidden = false;
    let mut active_page = false;
    let action;
    let disabled;
    match role {
        PaginationButtonRole::First => {
            hidden = !style.show_first_last;
            action = PaginationAction::First;
            disabled = !state.has_previous();
        },
        PaginationButtonRole::Previous => {
            action = PaginationAction::Previous;
            disabled = !state.has_previous();
        },
        PaginationButtonRole::Next => {
            action = PaginationAction::Next;
            disabled = !state.has_next();
        },
        PaginationButtonRole::Last => {
            hidden = !style.show_first_last;
            action = PaginationAction::Last;
            disabled = !state.has_next();
        },
        PaginationButtonRole::PageSlot(slot) => {
            if !style.show_page_numbers || slot >= visible_buttons {
                hidden = true;
                disabled = true;
                action = PaginationAction::Page(1);
            } else {
                assert(start as int + slot <= usize::MAX) by {
                    assert(start as int + visible_buttons - 1 <= state.total_pages || start == 1);
                }
                let page = start + slot;
                action = PaginationAction::Page(page);
                disabled = false;
                active_page = page == state.current_page;
            }
        },
    }
    PaginationButtonView {
        hidden,
        disabled,
        action,
        active_page,
        tab_index: if hidden || disabled { -1 } else { 0 },
    }
}

} // verus!
