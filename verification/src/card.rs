//! Dashboard cards: the order a dashboard restores from its saved layout,
//! and the decisions of dragging a card onto another to reorder them.
use vstd::prelude::*;

use crate::text::same_text;
use crate::theme::Interaction;

verus! {

/// The index of the last card whose id is `id`: where two cards share an
/// id, the later one is the one the saved layout finds.
pub open spec fn last_with_id(ids: Seq<Option<String>>, id: Seq<char>) -> Option<int>
    decreases ids.len(),
{
    if ids.len() == 0 {
        None
    } else if ids.last() matches Some(s) && s@ == id {
        Some(ids.len() - 1)
    } else {
        last_with_id(ids.drop_last(), id)
    }
}

/// The card at `k` has the id `id`.
pub open spec fn has_id(ids: Seq<Option<String>>, k: int, id: Seq<char>) -> bool {
    match ids[k] {
        Some(s) => s@ == id,
        None => false,
    }
}

/// The cards the saved order names, in saved order; saved ids that name no
/// card are skipped.
pub open spec fn saved_children(children: Seq<u64>, ids: Seq<Option<String>>, order: Seq<String>) -> Seq<
    u64,
>
    decreases order.len(),
{
    if order.len() == 0 {
        Seq::empty()
    } else {
        let rest = saved_children(children, ids, order.drop_last());
        match last_with_id(ids, order.last()@) {
            Some(k) => rest.push(children[k]),
            None => rest,
        }
    }
}

/// `acc` followed by the cards of `children` it lacks, in their order.
pub open spec fn append_missing(acc: Seq<u64>, children: Seq<u64>) -> Seq<u64>
    decreases children.len(),
{
    if children.len() == 0 {
        acc
    } else {
        let a = append_missing(acc, children.drop_last());
        if a.contains(children.last()) {
            a
        } else {
            a.push(children.last())
        }
    }
}

/// The order a dashboard restores: the cards its saved order names, then
/// the others in their current order.
pub open spec fn spec_hydrated_order(
    children: Seq<u64>,
    ids: Seq<Option<String>>,
    order: Seq<String>,
) -> Seq<u64> {
    append_missing(saved_children(children, ids, order), children)
}

/// The index of the last card whose id is `id`.
fn find_last_with_id(ids: &Vec<Option<String>>, id: &str) -> (r: Option<usize>)
    ensures
        match r {
            Some(k) => last_with_id(ids@, id@) == Some(k as int),
            None => last_with_id(ids@, id@) == None::<int>,
        },
{
    let mut i: usize = ids.len();
    assert(ids@.take(ids@.len() as int) =~= ids@);
    while i > 0
        invariant
            i <= ids@.len(),
            last_with_id(ids@, id@) == last_with_id(ids@.take(i as int), id@),
        decreases i,
    {
        let ghost t = ids@.take(i as int);
        assert(t.drop_last() == ids@.take(i - 1));
        assert(t.last() == ids@[i - 1]);
        let hit = match &ids[i - 1] {
            Some(s) => same_text(s.as_str(), id),
            None => false,
        };
        if hit {
            return Some(i - 1);
        }
        i -= 1;
    }
    None
}

/// Whether `v` holds `x`.
fn holds(v: &Vec<u64>, x: u64) -> (r: bool)
    ensures
        r == v@.contains(x),
{
    let mut i: usize = 0;
    while i < v.len()
        invariant
            i <= v@.len(),
            forall|j: int| 0 <= j < i ==> v@[j] != x,
        decreases v@.len() - i,
    {
        if v[i] == x {
            return true;
        }
        i += 1;
    }
    false
}

/// The order a dashboard restores from its saved layout: `children` are its
/// cards, `ids` the persistent id of each (if any), `order` the saved ids.
pub fn hydrated_order(children: &Vec<u64>, ids: &Vec<Option<String>>, order: &Vec<String>) -> (r:
    Vec<u64>)
    requires
        ids@.len() == children@.len(),
    ensures
        r@ == spec_hydrated_order(children@, ids@, order@),
{
    let mut out: Vec<u64> = Vec::new();
    let mut i: usize = 0;
    while i < order.len()
        invariant
            ids@.len() == children@.len(),
            i <= order@.len(),
            out@ == saved_children(children@, ids@, order@.take(i as int)),
        decreases order@.len() - i,
    {
        assert(order@.take(i + 1).drop_last() == order@.take(i as int));
        assert(order@.take(i + 1).last() == order@[i as int]);
        match find_last_with_id(ids, order[i].as_str()) {
            Some(k) => {
                proof {
                    lemma_last_with_id(ids@, order@[i as int]@);
                }
                out.push(children[k]);
            },
            None => {},
        }
        i += 1;
    }
    assert(order@.take(order@.len() as int) == order@);
    let ghost acc = out@;
    let mut j: usize = 0;
    while j < children.len()
        invariant
            j <= children@.len(),
            acc == saved_children(children@, ids@, order@),
            out@ == append_missing(acc, children@.take(j as int)),
        decreases children@.len() - j,
    {
        assert(children@.take(j + 1).drop_last() == children@.take(j as int));
        assert(children@.take(j + 1).last() == children@[j as int]);
        if !holds(&out, children[j]) {
            out.push(children[j]);
        }
        j += 1;
    }
    assert(children@.take(children@.len() as int) == children@);
    out
}

/// A found id names a card that has it.
pub proof fn lemma_last_with_id(ids: Seq<Option<String>>, id: Seq<char>)
    ensures
        last_with_id(ids, id) matches Some(k) ==> (0 <= k < ids.len() && has_id(ids, k, id)),
    decreases ids.len(),
{
    if ids.len() > 0 {
        lemma_last_with_id(ids.drop_last(), id);
    }
}

/// The cards the saved order names are cards of the dashboard, each named
/// by the id at the same place in the saved order; with distinct saved ids
/// and distinct cards, none is named twice.
proof fn lemma_saved_children(children: Seq<u64>, ids: Seq<Option<String>>, order: Seq<String>)
    requires
        ids.len() == children.len(),
        children.no_duplicates(),
        order.map_values(|s: String| s@).no_duplicates(),
    ensures
        saved_children(children, ids, order).no_duplicates(),
        forall|x: u64| #[trigger]
            saved_children(children, ids, order).contains(x) ==> exists|k: int, j: int|
                0 <= k < children.len() && 0 <= j < order.len() && children[k] == x
                    && has_id(ids, k, order[j]@),
    decreases order.len(),
{
    if order.len() > 0 {
        let rest_order = order.drop_last();
        assert(rest_order.map_values(|s: String| s@) =~= order.map_values(|s: String| s@).drop_last());
        lemma_saved_children(children, ids, rest_order);
        let rest = saved_children(children, ids, rest_order);
        let id = order.last()@;
        lemma_last_with_id(ids, id);
        let cur = saved_children(children, ids, order);
        match last_with_id(ids, id) {
            Some(k) => {
                let x = children[k];
                if rest.contains(x) {
                    let (k2, j2) = choose|k2: int, j2: int|
                        0 <= k2 < children.len() && 0 <= j2 < rest_order.len() && children[k2] == x
                            && has_id(ids, k2, rest_order[j2]@);
                    assert(k2 == k);
                    let views = order.map_values(|s: String| s@);
                    assert(views[j2] == views[order.len() - 1]);
                }
                assert forall|y: u64| #[trigger] cur.contains(y) implies exists|k3: int, j3: int|
                    0 <= k3 < children.len() && 0 <= j3 < order.len() && children[k3] == y
                        && has_id(ids, k3, order[j3]@) by {
                    if y == x {
                        assert(order[order.len() - 1] == order.last());
                        assert(children[k] == y);
                    } else {
                        assert(rest.contains(y));
                        let (k3, j3) = choose|k3: int, j3: int|
                            0 <= k3 < children.len() && 0 <= j3 < rest_order.len() && children[k3]
                                == y && has_id(ids, k3, rest_order[j3]@);
                        assert(order[j3] == rest_order[j3]);
                    }
                }
            },
            None => {},
        }
    }
}

/// Appending the missing cards keeps a list without repeats and yields
/// exactly the cards of both.
proof fn lemma_append_missing(acc: Seq<u64>, children: Seq<u64>)
    requires
        acc.no_duplicates(),
    ensures
        append_missing(acc, children).no_duplicates(),
        forall|x: u64|
            #[trigger] append_missing(acc, children).contains(x) <==> (acc.contains(x)
                || children.contains(x)),
    decreases children.len(),
{
    if children.len() > 0 {
        let rest = children.drop_last();
        lemma_append_missing(acc, rest);
        let a = append_missing(acc, rest);
        let r = append_missing(acc, children);
        assert forall|x: u64| #[trigger] r.contains(x) <==> (acc.contains(x) || children.contains(x)) by {
            if children.contains(x) && !rest.contains(x) {
                assert(x == children.last()) by {
                    let k = choose|k: int| 0 <= k < children.len() && children[k] == x;
                    if k < children.len() - 1 {
                        assert(rest[k] == x);
                    }
                }
            }
            if rest.contains(x) {
                let k = choose|k: int| 0 <= k < rest.len() && rest[k] == x;
                assert(children[k] == x);
            }
            if !a.contains(children.last()) {
                assert(r == a.push(children.last()));
                if r.contains(x) {
                    let k = choose|k: int| 0 <= k < r.len() && r[k] == x;
                    if k < a.len() {
                        assert(a[k] == x);
                    } else {
                        assert(children[children.len() - 1] == x);
                    }
                }
                if a.contains(x) {
                    let k = choose|k: int| 0 <= k < a.len() && a[k] == x;
                    assert(r[k] == x);
                }
                if x == children.last() {
                    assert(r[a.len() as int] == x);
                }
            } else {
                if x == children.last() {
                    assert(a.contains(x));
                }
            }
        }
    }
}

/// Restoring a saved layout only reorders a dashboard: with distinct cards
/// and distinct saved ids, every card appears exactly once.
pub proof fn lemma_hydration_is_a_permutation(
    children: Seq<u64>,
    ids: Seq<Option<String>>,
    order: Seq<String>,
)
    requires
        ids.len() == children.len(),
        children.no_duplicates(),
        order.map_values(|s: String| s@).no_duplicates(),
    ensures
        spec_hydrated_order(children, ids, order).no_duplicates(),
        forall|x: u64|
            #[trigger] spec_hydrated_order(children, ids, order).contains(x) <==> children.contains(
                x,
            ),
        spec_hydrated_order(children, ids, order).len() == children.len(),
{
    let saved = saved_children(children, ids, order);
    lemma_saved_children(children, ids, order);
    lemma_append_missing(saved, children);
    let r = spec_hydrated_order(children, ids, order);
    assert forall|x: u64| #[trigger] r.contains(x) <==> children.contains(x) by {
        if saved.contains(x) {
            let (k, j) = choose|k: int, j: int|
                0 <= k < children.len() && 0 <= j < order.len() && children[k] == x
                    && has_id(ids, k, order[j]@);
            assert(children.contains(x));
        }
    }
    r.unique_seq_to_set();
    children.unique_seq_to_set();
    assert(r.to_set() =~= children.to_set());
}

/// What a frame of dragging a card does.
#[derive(Clone, Copy, Debug, PartialEq, Eq, Structural)]
pub enum CardDragStep {
    /// The drag ends.
    Cancel,
    /// The drag goes on with nothing moved.
    Wait,
    /// The dragged card moves to this place among its siblings.
    MoveTo(usize),
}

/// The place of `x` in `v`.
pub open spec fn first_index(v: Seq<u64>, x: u64) -> Option<int> {
    if v.contains(x) {
        Some(choose|k: int| 0 <= k < v.len() && v[k] == x && forall|j: int| 0 <= j < k ==> v[j] != x)
    } else {
        None
    }
}

/// The first card other than `dragged` whose surface the pointer hovers.
pub open spec fn hovered_card(surfaces: Seq<(u64, Interaction)>, dragged: u64) -> Option<u64>
    decreases surfaces.len(),
{
    if surfaces.len() == 0 {
        None
    } else if surfaces[0].0 != dragged && surfaces[0].1 == Interaction::Hovered {
        Some(surfaces[0].0)
    } else {
        hovered_card(surfaces.drop_first(), dragged)
    }
}

/// The hovered card is never the dragged one.
proof fn lemma_hovered_is_other(surfaces: Seq<(u64, Interaction)>, dragged: u64)
    ensures
        hovered_card(surfaces, dragged) matches Some(h) ==> h != dragged,
    decreases surfaces.len(),
{
    if surfaces.len() > 0 {
        lemma_hovered_is_other(surfaces.drop_first(), dragged);
    }
}

/// The position of `x` in `v`.
fn position(v: &Vec<u64>, x: u64) -> (r: Option<usize>)
    ensures
        match r {
            Some(k) => k < v@.len() && v@[k as int] == x && forall|j: int| 0 <= j < k ==> v@[j] != x,
            None => !v@.contains(x),
        },
{
    let mut i: usize = 0;
    while i < v.len()
        invariant
            i <= v@.len(),
            forall|j: int| 0 <= j < i ==> v@[j] != x,
        decreases v@.len() - i,
    {
        if v[i] == x {
            return Some(i);
        }
        i += 1;
    }
    None
}

/// One frame of dragging the card `dragged` among `siblings` (its
/// dashboard's cards, `None` if the dashboard is gone): a resize or a
/// released button ends the drag, as does a card that left its dashboard;
/// hovering another card of the dashboard moves the dragged card to its
/// place.
pub fn card_drag_step(
    resizing: bool,
    mouse_down: bool,
    siblings: Option<&Vec<u64>>,
    dragged: u64,
    surfaces: &Vec<(u64, Interaction)>,
) -> (step: CardDragStep)
    ensures
        step == (if resizing || !mouse_down {
            CardDragStep::Cancel
        } else {
            match siblings {
                None => CardDragStep::Cancel,
                Some(v) => if !v@.contains(dragged) {
                    CardDragStep::Cancel
                } else {
                    match hovered_card(surfaces@, dragged) {
                        None => CardDragStep::Wait,
                        Some(h) => if !v@.contains(h) || h == dragged {
                            CardDragStep::Wait
                        } else {
                            CardDragStep::MoveTo(first_index(v@, h)->0 as usize)
                        },
                    }
                },
            }
        }),
{
    if resizing || !mouse_down {
        return CardDragStep::Cancel;
    }
    let v = match siblings {
        Some(v) => v,
        None => {
            return CardDragStep::Cancel;
        },
    };
    let dragged_index = match position(v, dragged) {
        Some(k) => k,
        None => {
            return CardDragStep::Cancel;
        },
    };
    let mut hovered: Option<u64> = None;
    let mut i: usize = 0;
    assert(surfaces@.skip(0) =~= surfaces@);
    while i < surfaces.len() && hovered.is_none()
        invariant
            i <= surfaces@.len(),
            hovered is None ==> hovered_card(surfaces@, dragged) == hovered_card(
                surfaces@.skip(i as int),
                dragged,
            ),
            hovered matches Some(h) ==> hovered_card(surfaces@, dragged) == Some(h),
        decreases surfaces@.len() - i,
    {
        assert(surfaces@.skip(i as int).drop_first() =~= surfaces@.skip(i + 1));
        assert(surfaces@.skip(i as int)[0] == surfaces@[i as int]);
        let (owner, interaction) = surfaces[i];
        if owner != dragged && interaction == Interaction::Hovered {
            hovered = Some(owner);
        }
        i += 1;
    }
    proof {
        if hovered.is_none() {
            assert(surfaces@.skip(i as int).len() == 0);
        }
    }
    let h = match hovered {
        Some(h) => h,
        None => {
            return CardDragStep::Wait;
        },
    };
    let target = match position(v, h) {
        Some(k) => k,
        None => {
            return CardDragStep::Wait;
        },
    };
    proof {
        assert(v@.contains(h));
        let c = first_index(v@, h)->0;
        assert(0 <= c < v@.len() && v@[c] == h && forall|j: int| 0 <= j < c ==> v@[j] != h);
        assert(c == target as int) by {
            if c < target as int {
                assert(v@[c] != h);
            } else if c > target as int {
                assert(v@[target as int] != h);
            }
        }
        lemma_hovered_is_other(surfaces@, dragged);
    }
    if target != dragged_index {
        CardDragStep::MoveTo(target)
    } else {
        CardDragStep::Wait
    }
}

/// Whether a press on a card's surface starts dragging it: not during a
/// resize, with the pointer in the window, and only for a card on a
/// dashboard.
pub fn begins_card_drag(
    resizing: bool,
    interaction: Interaction,
    cursor_in_window: bool,
    on_dashboard: bool,
) -> (r: bool)
    ensures
        r == (!resizing && interaction == Interaction::Pressed && cursor_in_window && on_dashboard),
{
    !resizing && match interaction {
        Interaction::Pressed => true,
        _ => false,
    } && cursor_in_window && on_dashboard
}

} // verus!
