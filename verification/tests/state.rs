use selection_list::root::init_store;
use selection_list::row::{close_item, dispatch, is_item_selected, select_item, Event};
use selection_list::store::Store;

#[test]
fn initial_state_seeds_list_and_selection() {
    let store = init_store();
    assert_eq!(store.items(), &vec![0, 1, 2, 3]);
    assert_eq!(store.selected(), Some(0));
}

#[test]
fn clicking_any_row_selects_it() {
    // whatever was selected before, clicking row x selects x.
    for x in 0..4usize {
        for prior in [None, Some(0), Some(1), Some(2), Some(3)] {
            let mut store = Store::new(vec![0, 1, 2, 3], prior);
            select_item(&mut store, x);
            assert_eq!(store.selected(), Some(x));
            assert_eq!(store.items(), &vec![0, 1, 2, 3]);
        }
    }
}

#[test]
fn reselecting_the_same_item_is_kept() {
    let mut store = Store::new(vec![0, 1, 2, 3], Some(2));
    select_item(&mut store, 2);
    assert_eq!(store.selected(), Some(2));
}

#[test]
fn closing_selected_row_clears_selection() {
    // closing the selected row removes it and resets the selection.
    let mut store = Store::new(vec![0, 1, 2, 3], Some(1));
    close_item(&mut store, 1);
    assert_eq!(store.items(), &vec![0, 2, 3]);
    assert_eq!(store.selected(), None);
}

#[test]
fn closing_other_row_keeps_selection() {
    // closing a row different from the selected one keeps the selection.
    let mut store = Store::new(vec![0, 1, 2, 3], Some(1));
    close_item(&mut store, 3);
    assert_eq!(store.items(), &vec![0, 1, 2]);
    assert_eq!(store.selected(), Some(1));
}

#[test]
fn closing_never_reselects_the_closed_row() {
    // after closing row x, the selection is never Some(x).
    for x in 0..4usize {
        for prior in [None, Some(0), Some(1), Some(2), Some(3)] {
            let mut store = Store::new(vec![0, 1, 2, 3], prior);
            close_item(&mut store, x);
            assert_ne!(store.selected(), Some(x));
        }
    }
}

#[test]
fn removal_preserves_order_of_remaining_rows() {
    // removing one element keeps the others in their relative order.
    let mut store = Store::new(vec![10, 20, 30, 40, 50], None);
    close_item(&mut store, 30);
    assert_eq!(store.items(), &vec![10, 20, 40, 50]);
    let mut first = Store::new(vec![10, 20, 40, 50], None);
    close_item(&mut first, 10);
    assert_eq!(first.items(), &vec![20, 40, 50]);
    let mut last = Store::new(vec![20, 40, 50], None);
    close_item(&mut last, 50);
    assert_eq!(last.items(), &vec![20, 40]);
}

#[test]
fn closing_an_absent_row_changes_nothing_in_the_list() {
    let mut store = Store::new(vec![0, 1, 2], Some(2));
    close_item(&mut store, 7);
    assert_eq!(store.items(), &vec![0, 1, 2]);
    assert_eq!(store.selected(), Some(2));
}

#[test]
fn closing_twice_is_harmless() {
    let mut store = init_store();
    close_item(&mut store, 2);
    close_item(&mut store, 2);
    assert_eq!(store.items(), &vec![0, 1, 3]);
    assert_eq!(store.selected(), Some(0));
}

#[test]
fn closing_removes_every_equal_identifier() {
    let mut store = Store::new(vec![5, 5, 7], Some(7));
    close_item(&mut store, 5);
    assert_eq!(store.items(), &vec![7]);
    assert_eq!(store.selected(), Some(7));
}

#[test]
fn closing_on_empty_list_is_harmless() {
    let mut store = Store::new(vec![], None);
    close_item(&mut store, 0);
    assert_eq!(store.items(), &Vec::<usize>::new());
    assert_eq!(store.selected(), None);
}

#[test]
fn is_selected_predicate_tracks_the_selection_cell() {
    let mut store = Store::new(vec![0, 1], None);
    assert!(!is_item_selected(&store, 0));
    select_item(&mut store, 0);
    assert!(is_item_selected(&store, 0));
    assert!(!is_item_selected(&store, 1));
}

#[test]
fn dispatch_routes_both_events() {
    let mut store = init_store();
    dispatch(&mut store, Event::RowClick(3));
    assert_eq!(store.selected(), Some(3));
    dispatch(&mut store, Event::CloseClick(3));
    assert_eq!(store.items(), &vec![0, 1, 2]);
    assert_eq!(store.selected(), None);
}

#[test]
fn set_selected_writes_the_cell() {
    let mut store = Store::new(vec![4], Some(4));
    store.set_selected(None);
    assert_eq!(store.selected(), None);
    store.set_selected(Some(9));
    assert_eq!(store.selected(), Some(9));
    assert_eq!(store.items(), &vec![4]);
}
