//! A verified model of a small selectable item list.
//!
//! The library keeps a store of two observable cells — an ordered list of
//! item identifiers and an optional selection — and provides the user-action
//! handlers (select a row, close a row), the keyed projection of the list
//! into row views, and the textual selection summary. Every operation
//! carries a contract describing exactly how it reads or changes the store.

pub mod list;
pub mod root;
pub mod row;
pub mod store;
pub mod summary;
pub mod text;
