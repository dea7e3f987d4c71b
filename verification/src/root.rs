//! The root composition: seeds the store and renders the whole page, the
//! selection summary above the item rows.

use vstd::prelude::*;
use crate::list::render_rows;
use crate::row::{RowView, spec_row_label};
use crate::store::{ItemId, Store};
use crate::summary::{render_summary, spec_summary};

verus! {

/// What the whole page renders: the selection summary text followed by the
/// row views, in list order.
pub struct Page {
    pub summary: String,
    pub rows: Vec<RowView>,
}

/// Builds the initial store: the item list `[0, 1, 2, 3]` with its first
/// element selected.
pub fn init_store() -> (store: Store)
    ensures
        store.items_view() == seq![0usize, 1usize, 2usize, 3usize],
        store.selected_view() == Some(0usize),
{
    let mut items: Vec<ItemId> = Vec::new();
    items.push(0);
    items.push(1);
    items.push(2);
    items.push(3);
    let first = items[0];
    proof {
        assert(items@ =~= seq![0usize, 1usize, 2usize, 3usize]);
    }
    Store::new(items, Some(first))
}

/// Renders the page for the current store.
pub fn render_page(store: &Store) -> (page: Page)
    ensures
        page.summary@ == spec_summary(store.selected_view()),
        page.rows@.len() == store.items_view().len(),
        forall|i: int|
            0 <= i < page.rows@.len() ==> (#[trigger] page.rows@[i]).id == store.items_view()[i],
        forall|i: int|
            0 <= i < page.rows@.len() ==> (#[trigger] page.rows@[i]).label@ == spec_row_label(
                store.items_view()[i],
            ),
        forall|i: int|
            0 <= i < page.rows@.len() ==> (#[trigger] page.rows@[i]).selected == (
            store.selected_view() == Some(store.items_view()[i])),
{
    Page { summary: render_summary(store), rows: render_rows(store) }
}

} // verus!
