//! The item list: a keyed projection of the item sequence into row views.

use vstd::prelude::*;
use crate::row::{RowView, render_row, spec_row_label};
use crate::store::Store;

verus! {

/// Projects the current item list into one row view per element, in list
/// order. Each row is keyed by its item identifier: the row at position `i`
/// carries the identifier at position `i` of the list, its label text, and
/// the selected marker exactly for the selected identifier.
pub fn render_rows(store: &Store) -> (rows: Vec<RowView>)
    ensures
        rows@.len() == store.items_view().len(),
        forall|i: int|
            0 <= i < rows@.len() ==> (#[trigger] rows@[i]).id == store.items_view()[i],
        forall|i: int|
            0 <= i < rows@.len() ==> (#[trigger] rows@[i]).label@ == spec_row_label(
                store.items_view()[i],
            ),
        forall|i: int|
            0 <= i < rows@.len() ==> (#[trigger] rows@[i]).selected == (store.selected_view()
                == Some(store.items_view()[i])),
{
    let mut rows: Vec<RowView> = Vec::new();
    let n = store.items().len();
    for k in 0..n
        invariant
            n == store.items_view().len(),
            rows@.len() == k,
            forall|i: int| 0 <= i < k ==> (#[trigger] rows@[i]).id == store.items_view()[i],
            forall|i: int|
                0 <= i < k ==> (#[trigger] rows@[i]).label@ == spec_row_label(
                    store.items_view()[i],
                ),
            forall|i: int|
                0 <= i < k ==> (#[trigger] rows@[i]).selected == (store.selected_view() == Some(
                    store.items_view()[i],
                )),
    {
        let item = store.items()[k];
        let row = render_row(store, item);
        rows.push(row);
    }
    rows
}

} // verus!
