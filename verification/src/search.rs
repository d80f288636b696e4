//! Search boxes: their query and highlighted suggestion, what the keyboard
//! does to them, which search a click focuses, and the suggestions a local
//! list of values completes a query with.
use vstd::prelude::*;

use crate::text::{contains_str, is_blank, lowercase_of, spec_contains, spec_is_blank, to_lowercase};
use crate::theme::ThemeSlot;

verus! {

/// A search box: its id, placeholder and query, whether it has keyboard
/// focus, whether its suggestions show, which suggestion is highlighted,
/// and how many suggestions it asks for.
pub struct Search {
    pub id: String,
    pub placeholder: String,
    pub query: String,
    pub focused: bool,
    pub show_suggestions: bool,
    pub selected: Option<usize>,
    pub max_suggestions: usize,
}

impl Search {
    /// An empty, unfocused search `id` that asks for eight suggestions.
    pub fn new(id: String) -> (s: Self)
        ensures
            s.id == id,
            s.placeholder@ == "Search..."@,
            s.query@ == Seq::<char>::empty(),
            !s.focused,
            !s.show_suggestions,
            s.selected is None,
            s.max_suggestions == 8,
    {
        Search {
            id,
            placeholder: String::from_str("Search..."),
            query: String::new(),
            focused: false,
            show_suggestions: false,
            selected: None,
            max_suggestions: 8,
        }
    }

    /// Sets the placeholder.
    pub fn placeholder(self, value: String) -> (s: Self)
        ensures
            s == (Search { placeholder: value, ..self }),
    {
        Search { placeholder: value, ..self }
    }

    /// Sets how many suggestions the search asks for.
    pub fn max_suggestions(self, value: usize) -> (s: Self)
        ensures
            s == (Search { max_suggestions: value, ..self }),
    {
        Search { max_suggestions: value, ..self }
    }
}

/// A completion: the value it puts in the query, the label it shows, and
/// an optional description and icon.
pub struct SearchSuggestion {
    pub value: String,
    pub label: String,
    pub description: Option<String>,
    pub icon: Option<String>,
}

/// A copy of an optional string.
fn clone_opt(s: &Option<String>) -> (r: Option<String>)
    ensures
        r == *s,
{
    match s {
        Some(v) => Some(v.clone()),
        None => None,
    }
}

impl Clone for SearchSuggestion {
    fn clone(&self) -> (r: Self)
        ensures
            r == *self,
    {
        SearchSuggestion {
            value: self.value.clone(),
            label: self.label.clone(),
            description: clone_opt(&self.description),
            icon: clone_opt(&self.icon),
        }
    }
}

impl SearchSuggestion {
    /// A suggestion of `value`, shown as `label`.
    pub fn new(value: String, label: String) -> (s: Self)
        ensures
            s == (SearchSuggestion { value, label, description: None, icon: None }),
    {
        SearchSuggestion { value, label, description: None, icon: None }
    }

    /// Sets the description.
    pub fn description(self, value: String) -> (s: Self)
        ensures
            s == (SearchSuggestion { description: Some(value), ..self }),
    {
        SearchSuggestion { description: Some(value), ..self }
    }

    /// Sets the icon.
    pub fn icon(self, value: String) -> (s: Self)
        ensures
            s == (SearchSuggestion { icon: Some(value), ..self }),
    {
        SearchSuggestion { icon: Some(value), ..self }
    }
}

/// The suggestions a search currently offers.
pub struct SearchCompletion {
    pub suggestions: Vec<SearchSuggestion>,
}

impl Default for SearchCompletion {
    fn default() -> (c: Self)
        ensures
            c.suggestions@.len() == 0,
    {
        SearchCompletion { suggestions: Vec::new() }
    }
}

/// The query of a search changed.
pub struct SearchChanged {
    pub search_id: String,
    pub query: String,
}

/// A search was submitted.
pub struct SearchSubmitted {
    pub search_id: String,
    pub query: String,
}

/// A suggestion was chosen.
pub struct SearchSuggestionSelected {
    pub search_id: String,
    pub value: String,
}

/// A search asks for suggestions for its query.
pub struct SearchCompletionRequested {
    pub search_id: String,
    pub query: String,
}

/// The keys pressed in one frame.
#[derive(Clone, Copy, Debug, PartialEq, Eq, Structural)]
pub struct SearchKeys {
    pub down: bool,
    pub up: bool,
    pub tab: bool,
    pub enter: bool,
    pub escape: bool,
}

/// What the keys of one frame announced.
pub struct SearchKeyEvents {
    pub changed: Option<SearchChanged>,
    pub submitted: Option<SearchSubmitted>,
    pub selected: Option<SearchSuggestionSelected>,
}

/// The highlight after Down among `n` suggestions: the first, or the next,
/// wrapping around.
pub open spec fn highlight_after_down(selected: Option<usize>, n: nat) -> Option<usize> {
    match selected {
        None => Some(0),
        Some(i) => Some(((i + 1) % (n as int)) as usize),
    }
}

/// The highlight after Up among `n` suggestions: the last, or the
/// previous, wrapping around.
pub open spec fn highlight_after_up(selected: Option<usize>, n: nat) -> Option<usize> {
    match selected {
        None => Some((n - 1) as usize),
        Some(i) => if i == 0 {
            Some((n - 1) as usize)
        } else {
            Some((i - 1) as usize)
        },
    }
}

/// A highlight that names one of `n` suggestions.
pub open spec fn highlights_one_of(selected: Option<usize>, n: nat) -> bool {
    selected matches Some(i) && i < n
}

/// No events.
pub open spec fn no_search_events() -> SearchKeyEvents {
    SearchKeyEvents { changed: None, submitted: None, selected: None }
}

/// A search and the events after the keys of a frame, for a focused search
/// with suggestions `sugg`. Down, then Up, move the highlight, but either
/// with no suggestions ends the frame's handling there. Tab puts the
/// highlighted suggestion in the query and announces the change; Enter
/// chooses the highlighted suggestion, or submits the query if none is
/// highlighted; Escape hides the suggestions and drops the highlight.
pub open spec fn spec_search_keys(
    s: Search,
    sugg: Seq<SearchSuggestion>,
    keys: SearchKeys,
) -> (Search, SearchKeyEvents) {
    let n = sugg.len();
    if !s.focused || (keys.down && n == 0) {
        (s, no_search_events())
    } else {
        let sel1 = if keys.down {
            highlight_after_down(s.selected, n)
        } else {
            s.selected
        };
        if keys.up && n == 0 {
            (Search { selected: sel1, ..s }, no_search_events())
        } else {
            let sel2 = if keys.up {
                highlight_after_up(sel1, n)
            } else {
                sel1
            };
            let tab_hit = keys.tab && highlights_one_of(sel2, n);
            let q3 = if tab_hit {
                sugg[sel2->0 as int].value
            } else {
                s.query
            };
            let sel3 = if tab_hit {
                None
            } else {
                sel2
            };
            let changed = if tab_hit {
                Some(SearchChanged { search_id: s.id, query: q3 })
            } else {
                None
            };
            let enter_hit = keys.enter && highlights_one_of(sel3, n);
            let q4 = if enter_hit {
                sugg[sel3->0 as int].value
            } else {
                q3
            };
            let chosen = if enter_hit {
                Some(SearchSuggestionSelected { search_id: s.id, value: sugg[sel3->0 as int].value })
            } else {
                None
            };
            let submitted = if keys.enter && sel3 is None {
                Some(SearchSubmitted { search_id: s.id, query: q3 })
            } else {
                None
            };
            let sel4 = if enter_hit {
                None
            } else {
                sel3
            };
            let sel5 = if keys.escape {
                None
            } else {
                sel4
            };
            let show = if keys.escape {
                false
            } else {
                s.show_suggestions
            };
            (
                Search { query: q4, selected: sel5, show_suggestions: show, ..s },
                SearchKeyEvents { changed, submitted, selected: chosen },
            )
        }
    }
}

/// Applies the keys of one frame to a search with the suggestions of
/// `completion`.
pub fn search_keyboard(search: &mut Search, completion: &SearchCompletion, keys: SearchKeys) -> (ev:
    SearchKeyEvents)
    requires
        !(old(search).focused && keys.down && completion.suggestions@.len() > 0
            && old(search).selected == Some(usize::MAX)),
    ensures
        (*final(search), ev) == spec_search_keys(*old(search), completion.suggestions@, keys),
{
    let n = completion.suggestions.len();
    if !search.focused {
        return SearchKeyEvents { changed: None, submitted: None, selected: None };
    }
    if keys.down {
        if n == 0 {
            return SearchKeyEvents { changed: None, submitted: None, selected: None };
        }
        let next = match search.selected {
            None => 0,
            Some(index) => (index + 1) % n,
        };
        search.selected = Some(next);
    }
    if keys.up {
        if n == 0 {
            return SearchKeyEvents { changed: None, submitted: None, selected: None };
        }
        let next = match search.selected {
            None => n - 1,
            Some(index) => if index == 0 {
                n - 1
            } else {
                index - 1
            },
        };
        search.selected = Some(next);
    }
    let mut changed: Option<SearchChanged> = None;
    if keys.tab {
        if let Some(index) = search.selected {
            if index < n {
                search.query = completion.suggestions[index].value.clone();
                search.selected = None;
                changed = Some(SearchChanged { search_id: search.id.clone(), query: search.query.clone() });
            }
        }
    }
    let mut submitted: Option<SearchSubmitted> = None;
    let mut chosen: Option<SearchSuggestionSelected> = None;
    if keys.enter {
        match search.selected {
            Some(index) => {
                if index < n {
                    search.query = completion.suggestions[index].value.clone();
                    chosen = Some(
                        SearchSuggestionSelected {
                            search_id: search.id.clone(),
                            value: completion.suggestions[index].value.clone(),
                        },
                    );
                    search.selected = None;
                }
            },
            None => {
                submitted = Some(SearchSubmitted { search_id: search.id.clone(), query: search.query.clone() });
            },
        }
    }
    if keys.escape {
        search.show_suggestions = false;
        search.selected = None;
    }
    SearchKeyEvents { changed, submitted, selected: chosen }
}

/// Down, then Up, among the same suggestions returns the highlight to
/// where it was.
pub proof fn lemma_down_then_up(selected: usize, n: nat)
    requires
        selected < n,
        n <= usize::MAX,
    ensures
        highlight_after_up(highlight_after_down(Some(selected), n), n) == Some(selected),
{
    if selected + 1 < n {
        assert((selected + 1) % (n as int) == selected + 1) by {
            vstd::arithmetic::div_mod::lemma_small_mod((selected + 1) as nat, n);
        }
    } else {
        assert((selected + 1) % (n as int) == 0) by {
            vstd::arithmetic::div_mod::lemma_mod_self_0(n as int);
        }
    }
}

/// The arrow keys keep a highlight among the suggestions: from no
/// highlight or one of `n`, Down and Up both give one of `n`.
pub proof fn lemma_arrows_keep_highlight_in_range(selected: Option<usize>, n: nat)
    requires
        n > 0,
        n <= usize::MAX,
        selected matches Some(i) ==> i < n,
    ensures
        highlights_one_of(highlight_after_down(selected, n), n),
        highlights_one_of(highlight_after_up(selected, n), n),
{
    if let Some(i) = selected {
        vstd::arithmetic::div_mod::lemma_mod_bound((i + 1) as int, n as int);
        assert(0 <= (i + 1) % (n as int) < n);
    }
}

/// Escape in a frame where the keys are handled always hides the
/// suggestions and leaves nothing highlighted.
pub proof fn lemma_escape_clears_highlight(s: Search, sugg: Seq<SearchSuggestion>, keys: SearchKeys)
    requires
        s.focused,
        keys.escape,
        !keys.down || sugg.len() > 0,
        !keys.up || sugg.len() > 0,
    ensures
        spec_search_keys(s, sugg, keys).0.selected is None,
        !spec_search_keys(s, sugg, keys).0.show_suggestions,
{
}

/// Which searches a click focuses: the clicked search only; a click
/// elsewhere leaves none focused; without a click nothing changes.
pub open spec fn spec_search_focus(
    search_entity: u64,
    focused: bool,
    clicked: Option<u64>,
    mouse_pressed: bool,
) -> bool {
    match clicked {
        Some(c) => search_entity == c,
        None => if mouse_pressed {
            false
        } else {
            focused
        },
    }
}

/// Whether the search `search_entity` has focus after a frame in which the
/// search `clicked` was pressed, or the mouse went down elsewhere.
pub fn search_focus(search_entity: u64, focused: bool, clicked: Option<u64>, mouse_pressed: bool) -> (r:
    bool)
    ensures
        r == spec_search_focus(search_entity, focused, clicked, mouse_pressed),
{
    match clicked {
        Some(c) => search_entity == c,
        None => if mouse_pressed {
            false
        } else {
            focused
        },
    }
}

/// The colour of a search's border: the focus colour while it has focus.
pub fn search_border_slot(search: &Search) -> (slot: ThemeSlot)
    ensures
        slot == (if search.focused {
            ThemeSlot::Focus
        } else {
            ThemeSlot::Border
        }),
{
    if search.focused {
        ThemeSlot::Focus
    } else {
        ThemeSlot::Border
    }
}

/// The placeholder shows while the query is empty.
pub fn search_placeholder_visible(search: &Search) -> (visible: bool)
    ensures
        visible == (search.query@.len() == 0),
{
    search.query.as_str().is_empty()
}

/// A source of suggestions for a query, at most `limit` of them.
pub trait SearchCompletionProvider {
    fn complete(&self, query: &str, limit: usize) -> Vec<SearchSuggestion>;
}

/// Completes queries from a fixed list of suggestions.
pub struct LocalCompletionProvider {
    pub values: Vec<SearchSuggestion>,
}

impl LocalCompletionProvider {
    /// A provider that completes from `values`.
    pub fn new(values: Vec<SearchSuggestion>) -> (p: Self)
        ensures
            p.values == values,
    {
        LocalCompletionProvider { values }
    }
}

/// The suggestions whose label, in lower case, holds `query`, in order.
pub open spec fn matching_suggestions(values: Seq<SearchSuggestion>, query: Seq<char>) -> Seq<
    SearchSuggestion,
>
    decreases values.len(),
{
    if values.len() == 0 {
        Seq::empty()
    } else {
        let rest = matching_suggestions(values.drop_last(), query);
        if spec_contains(lowercase_of(values.last().label@), query) {
            rest.push(values.last())
        } else {
            rest
        }
    }
}

/// The first `limit` items of `s`, or all of them if there are fewer.
pub open spec fn at_most(s: Seq<SearchSuggestion>, limit: nat) -> Seq<SearchSuggestion> {
    if s.len() <= limit {
        s
    } else {
        s.take(limit as int)
    }
}

/// The local completions of `query`: none for a blank query; otherwise the
/// first `limit` values whose label holds the query, both in lower case.
pub open spec fn spec_local_complete(values: Seq<SearchSuggestion>, query: Seq<char>, limit: nat) -> Seq<
    SearchSuggestion,
> {
    if spec_is_blank(query) {
        Seq::empty()
    } else {
        at_most(matching_suggestions(values, lowercase_of(query)), limit)
    }
}

impl LocalCompletionProvider {
    /// The values whose label matches `query`, at most `limit` of them.
    pub fn complete_local(&self, query: &str, limit: usize) -> (r: Vec<SearchSuggestion>)
        ensures
            r@ == spec_local_complete(self.values@, query@, limit as nat),
    {
        let mut out: Vec<SearchSuggestion> = Vec::new();
        if is_blank(query) {
            return out;
        }
        let q = to_lowercase(query);
        let mut i: usize = 0;
        while i < self.values.len()
            invariant
                i <= self.values@.len(),
                q@ == lowercase_of(query@),
                out@ == at_most(matching_suggestions(self.values@.take(i as int), q@), limit as nat),
            decreases self.values@.len() - i,
        {
            let ghost prev = matching_suggestions(self.values@.take(i as int), q@);
            assert(self.values@.take(i + 1).drop_last() == self.values@.take(i as int));
            assert(self.values@.take(i + 1).last() == self.values@[i as int]);
            let label = to_lowercase(self.values[i].label.as_str());
            if contains_str(label.as_str(), q.as_str()) {
                if out.len() < limit {
                    out.push(self.values[i].clone());
                } else {
                    assert(prev.push(self.values@[i as int]).take(limit as int) =~= prev.take(
                        limit as int,
                    ));
                }
            }
            i += 1;
        }
        assert(self.values@.take(self.values@.len() as int) == self.values@);
        out
    }
}

impl SearchCompletionProvider for LocalCompletionProvider {
    fn complete(&self, query: &str, limit: usize) -> (r: Vec<SearchSuggestion>)
        ensures
            r@ == spec_local_complete(self.values@, query@, limit as nat),
    {
        self.complete_local(query, limit)
    }
}


/// The suggestions a query matches are exactly those of `values` whose
/// lower-case label contains it, in their order.
pub proof fn lemma_matching_is_in_order_filter(values: Seq<SearchSuggestion>, query: Seq<char>)
    ensures
        matching_suggestions(values, query) == values.filter(
            |v: SearchSuggestion| spec_contains(lowercase_of(v.label@), query),
        ),
    decreases values.len(),
{
    reveal(Seq::filter);
    if values.len() > 0 {
        lemma_matching_is_in_order_filter(values.drop_last(), query);
    }
}

/// Local completion gives the first `limit` of the matching suggestions,
/// in order (all of them when fewer match), and nothing for a blank query:
/// the `k`-th completion is the `k`-th value whose lower-case label holds
/// the lower-case query.
pub proof fn lemma_local_complete_takes_first_matches(
    values: Seq<SearchSuggestion>,
    query: Seq<char>,
    limit: nat,
)
    ensures
        ({
            let r = spec_local_complete(values, query, limit);
            let m = values.filter(
                |v: SearchSuggestion| spec_contains(lowercase_of(v.label@), lowercase_of(query)),
            );
            &&& spec_is_blank(query) ==> r.len() == 0
            &&& !spec_is_blank(query) ==> {
                &&& r.len() == (if m.len() <= limit {
                    m.len()
                } else {
                    limit
                })
                &&& forall|k: int| 0 <= k < r.len() ==> #[trigger] r[k] == m[k]
            }
        }),
{
    lemma_matching_is_in_order_filter(values, lowercase_of(query));
}

} // verus!
