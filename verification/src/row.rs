//! One item row: its selection predicate, its two click actions, and its
//! rendered view.

use vstd::prelude::*;
use vstd::string::StringExecFns;
use crate::store::{ItemId, Store, removed, lemma_removed_drops_id};
use crate::text::{format_decimal, spec_decimal};

verus! {

/// The text a row displays for `item`: `"Item "` followed by the decimal
/// digits of the identifier.
pub open spec fn spec_row_label(item: ItemId) -> Seq<char> {
    "Item "@ + spec_decimal(item as nat)
}

/// What one row renders: its key, its display text, and whether it carries
/// the selected visual marker.
pub struct RowView {
    pub id: ItemId,
    pub label: String,
    pub selected: bool,
}

/// The is-selected predicate of row `item`: reads the selection cell and is
/// true exactly when this row's identifier is the selected one.
pub fn is_item_selected(store: &Store, item: ItemId) -> (sel: bool)
    ensures
        sel == (store.selected_view() == Some(item)),
{
    match store.selected() {
        Some(s) => s == item,
        None => false,
    }
}

/// The select action: a primary click on the row body makes `item` the
/// selection, whatever was selected before. The item list is untouched.
pub fn select_item(store: &mut Store, item: ItemId)
    ensures
        final(store).selected_view() == Some(item),
        final(store).items_view() == old(store).items_view(),
{
    store.set_selected(Some(item));
}

/// The close action: a click on the row's close control removes `item` from
/// the list and, exactly when `item` was the selection, resets the
/// selection to none. A foreign selection is left as it was, and the
/// just-removed identifier is never the selection afterwards.
pub fn close_item(store: &mut Store, item: ItemId)
    ensures
        final(store).items_view() == removed(old(store).items_view(), item),
        !final(store).items_view().contains(item),
        final(store).selected_view() == (if old(store).selected_view() == Some(item) {
            None::<ItemId>
        } else {
            old(store).selected_view()
        }),
        forall|y: ItemId|
            old(store).selected_view() == Some(y) && y != item ==> final(store).selected_view()
                == Some(y),
        final(store).selected_view() != Some(item),
{
    store.retain_except(item);
    if is_item_selected(store, item) {
        store.set_selected(None);
    }
    proof {
        lemma_removed_drops_id(old(store).items_view(), item);
    }
}

/// A user interaction delivered by the host environment: a primary click on
/// a row body, or a click on a row's close control. A close click is
/// delivered alone — propagation is stopped at the control, so a close is
/// never followed by the enclosing row's own select handler.
pub enum Event {
    RowClick(ItemId),
    CloseClick(ItemId),
}

/// Routes one user event to the matching row action.
pub fn dispatch(store: &mut Store, event: Event)
    ensures
        (match event {
            Event::RowClick(item) => {
                &&& final(store).selected_view() == Some(item)
                &&& final(store).items_view() == old(store).items_view()
            },
            Event::CloseClick(item) => {
                &&& final(store).items_view() == removed(old(store).items_view(), item)
                &&& !final(store).items_view().contains(item)
                &&& final(store).selected_view() == (if old(store).selected_view() == Some(item) {
                    None::<ItemId>
                } else {
                    old(store).selected_view()
                })
                &&& final(store).selected_view() != Some(item)
            },
        }),
{
    match event {
        Event::RowClick(item) => select_item(store, item),
        Event::CloseClick(item) => close_item(store, item),
    }
}

/// Renders row `item` against the current store: the key is the identifier
/// itself, and the selected marker is applied exactly when the is-selected
/// predicate holds.
pub fn render_row(store: &Store, item: ItemId) -> (row: RowView)
    ensures
        row.id == item,
        row.label@ == spec_row_label(item),
        row.selected == (store.selected_view() == Some(item)),
{
    let mut label = String::from_str("Item ");
    let digits = format_decimal(item);
    label.append(digits.as_str());
    RowView { id: item, label, selected: is_item_selected(store, item) }
}

} // verus!
