//! The state store: two independently observable cells.

use vstd::prelude::*;
use vstd::seq_lib::*;

verus! {

/// The integer identifying and labeling one row.
pub type ItemId = usize;

/// What remains of `items` after the row `id` is closed: every element not
/// equal to `id`, in their original relative order.
pub open spec fn removed(items: Seq<ItemId>, id: ItemId) -> Seq<ItemId> {
    items.filter(|i: ItemId| i != id)
}

/// Holds the two reactive cells: the ordered list of item identifiers and
/// the optionally selected identifier. The selection is a value-equality
/// reference — a copy of an identifier, not a link into the list.
pub struct Store {
    items: Vec<ItemId>,
    selected: Option<ItemId>,
}

impl Store {
    /// The contents of the item-list cell, in display order.
    pub closed spec fn items_view(self) -> Seq<ItemId> {
        self.items@
    }

    /// The contents of the selection cell.
    pub closed spec fn selected_view(self) -> Option<ItemId> {
        self.selected
    }

    /// Creates a store whose cells hold the given list and selection.
    pub fn new(items: Vec<ItemId>, selected: Option<ItemId>) -> (store: Store)
        ensures
            store.items_view() == items@,
            store.selected_view() == selected,
    {
        Store { items, selected }
    }

    /// Reads the item-list cell.
    pub fn items(&self) -> (items: &Vec<ItemId>)
        ensures
            items@ == self.items_view(),
    {
        &self.items
    }

    /// Reads the selection cell.
    pub fn selected(&self) -> (selected: Option<ItemId>)
        ensures
            selected == self.selected_view(),
    {
        self.selected
    }

    /// Writes the selection cell; the item list is untouched.
    pub fn set_selected(&mut self, selected: Option<ItemId>)
        ensures
            final(self).selected_view() == selected,
            final(self).items_view() == old(self).items_view(),
    {
        self.selected = selected;
    }

    /// Updates the item-list cell in place, keeping every element not equal
    /// to `id`; the selection is untouched.
    pub fn retain_except(&mut self, id: ItemId)
        ensures
            final(self).items_view() == removed(old(self).items_view(), id),
            final(self).selected_view() == old(self).selected_view(),
    {
        let kept = remove_all(&self.items, id);
        self.items = kept;
    }
}

/// The selection, if any, refers to an item that is present in the list.
/// This is the logical invariant every user action maintains.
pub open spec fn selection_live(items: Seq<ItemId>, selected: Option<ItemId>) -> bool {
    match selected {
        Some(y) => items.contains(y),
        None => true,
    }
}

/// Selecting an existing row keeps the selection live: the newly selected
/// identifier is in the list.
pub proof fn lemma_select_keeps_selection_live(items: Seq<ItemId>, item: ItemId)
    requires
        items.contains(item),
    ensures
        selection_live(items, Some(item)),
{
}

/// Closing any row keeps the selection live: either the closed row was the
/// selection, which is reset to none, or the selection refers to a
/// different identifier, which the removal keeps in the list.
pub proof fn lemma_close_keeps_selection_live(
    items: Seq<ItemId>,
    selected: Option<ItemId>,
    id: ItemId,
)
    requires
        selection_live(items, selected),
    ensures
        selection_live(
            removed(items, id),
            if selected == Some(id) {
                None
            } else {
                selected
            },
        ),
{
    match selected {
        Some(y) => {
            if y != id {
                lemma_removed_keeps_others(items, id, y);
            }
        },
        None => {},
    }
}

/// Closing a row drops its identifier from the list entirely.
pub proof fn lemma_removed_drops_id(items: Seq<ItemId>, id: ItemId)
    ensures
        !removed(items, id).contains(id),
{
    broadcast use Seq::lemma_filter_pred;

    let out = removed(items, id);
    assert forall|j: int| 0 <= j < out.len() implies out[j] != id by {
        assert((|i: ItemId| i != id)(out[j]));
    }
}

/// Closing a row keeps every other identifier: an item different from the
/// removed one is in the new list exactly when it was in the old one.
pub proof fn lemma_removed_keeps_others(items: Seq<ItemId>, id: ItemId, y: ItemId)
    requires
        y != id,
    ensures
        removed(items, id).contains(y) <==> items.contains(y),
{
    broadcast use Seq::lemma_filter_contains, Seq::lemma_filter_contains_rev;

    if items.contains(y) {
        let j = choose|j: int| 0 <= j < items.len() && items[j] == y;
        assert((|i: ItemId| i != id)(items[j]));
        assert(removed(items, id).contains(y));
    }
}

/// Every element of a list of pairwise-distinct identifiers that holds `id`
/// at position `k` keeps its relative order when `id` is removed: what is
/// left is exactly the part before `k` followed by the part after `k`.
pub proof fn lemma_removal_preserves_order(items: Seq<ItemId>, id: ItemId, k: int)
    requires
        items.no_duplicates(),
        0 <= k < items.len(),
        items[k] == id,
    ensures
        removed(items, id) == items.subrange(0, k) + items.subrange(k + 1, items.len() as int),
{
    broadcast use Seq::filter_distributes_over_add;

    let before = items.subrange(0, k);
    let after = items.subrange(k + 1, items.len() as int);
    assert(items =~= before + seq![id] + after);
    assert forall|j: int| 0 <= j < before.len() implies before[j] != id by {
        assert(before[j] == items[j]);
    }
    assert forall|j: int| 0 <= j < after.len() implies after[j] != id by {
        assert(after[j] == items[k + 1 + j]);
    }
    lemma_removed_none_present(before, id);
    lemma_removed_none_present(after, id);
    lemma_removed_singleton(id);
    assert(removed(before + seq![id] + after, id) == removed(before + seq![id], id) + removed(
        after,
        id,
    ));
    assert(removed(before + seq![id], id) == removed(before, id) + removed(seq![id], id));
    assert(before + Seq::<ItemId>::empty() + after =~= before + after);
}

/// Removing an identifier that occurs nowhere in the list leaves the list
/// as it was.
pub proof fn lemma_removed_none_present(items: Seq<ItemId>, id: ItemId)
    requires
        forall|j: int| 0 <= j < items.len() ==> items[j] != id,
    ensures
        removed(items, id) == items,
    decreases items.len(),
{
    reveal(Seq::filter);
    if items.len() > 0 {
        lemma_removed_none_present(items.drop_last(), id);
        assert(removed(items, id) =~= items);
    }
}

proof fn lemma_removed_singleton(id: ItemId)
    ensures
        removed(seq![id], id) == Seq::<ItemId>::empty(),
{
    reveal_with_fuel(Seq::filter, 2);
    assert(seq![id].drop_last() =~= Seq::<ItemId>::empty());
    assert(seq![id].last() == id);
}

/// A copy of `v` without the elements equal to `id`, order kept.
fn remove_all(v: &Vec<ItemId>, id: ItemId) -> (out: Vec<ItemId>)
    ensures
        out@ == removed(v@, id),
{
    let mut out: Vec<ItemId> = Vec::new();
    let n = v.len();
    for k in 0..n
        invariant
            n == v@.len(),
            out@ == removed(v@.subrange(0, k as int), id),
    {
        proof {
            reveal(Seq::filter);
            let sub_next = v@.subrange(0, k + 1);
            assert(sub_next.drop_last() =~= v@.subrange(0, k as int));
            assert(sub_next.last() == v@[k as int]);
        }
        if v[k] != id {
            out.push(v[k]);
        }
    }
    proof {
        assert(v@.subrange(0, n as int) =~= v@);
    }
    out
}

} // verus!
