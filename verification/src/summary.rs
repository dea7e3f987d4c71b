//! The selection summary: one of two mutually exclusive renderings of the
//! selection cell, and the proof that the text determines the selection.

use vstd::prelude::*;
use vstd::string::StringExecFns;
use crate::store::{ItemId, Store};
use crate::text::{format_decimal, lemma_decimal_injective, lemma_decimal_len, spec_decimal};

verus! {

/// The text the selection summary renders: the fixed no-selection line when
/// nothing is selected, otherwise the selected identifier framed by
/// `"Item "` and `" is selected"`.
pub open spec fn spec_summary(selected: Option<ItemId>) -> Seq<char> {
    match selected {
        None => "No item selected"@,
        Some(x) => "Item "@ + spec_decimal(x as nat) + " is selected"@,
    }
}

/// Renders the selection summary for the current store.
pub fn render_summary(store: &Store) -> (s: String)
    ensures
        s@ == spec_summary(store.selected_view()),
{
    match store.selected() {
        None => String::from_str("No item selected"),
        Some(x) => {
            let mut s = String::from_str("Item ");
            let digits = format_decimal(x);
            s.append(digits.as_str());
            s.append(" is selected");
            s
        },
    }
}

/// The summary text reflects the selection exactly: the no-selection line
/// appears precisely when nothing is selected, and the line for item `x`
/// appears precisely when `x` is selected.
pub proof fn lemma_summary_exact(selected: Option<ItemId>, x: ItemId)
    ensures
        (spec_summary(selected) == "No item selected"@) <==> selected is None,
        (spec_summary(selected) == spec_summary(Some(x))) <==> selected == Some(x),
{
    reveal_strlit("No item selected");
    reveal_strlit("Item ");
    reveal_strlit(" is selected");
    if selected is Some {
        let y = selected->0;
        lemma_decimal_len(y as nat);
        assert(spec_summary(selected)[0] == 'I');
        assert("No item selected"@[0] == 'N');
        if spec_summary(selected) == spec_summary(Some(x)) && y != x {
            lemma_decimal_len(x as nat);
            let dy = spec_decimal(y as nat);
            let dx = spec_decimal(x as nat);
            assert(spec_summary(Some(y)).len() == 5 + dy.len() + 12);
            assert(spec_summary(Some(x)).len() == 5 + dx.len() + 12);
            assert(dy.len() == dx.len());
            assert(spec_summary(Some(y)).subrange(5, 5 + dy.len() as int) =~= dy);
            assert(spec_summary(Some(x)).subrange(5, 5 + dx.len() as int) =~= dx);
            lemma_decimal_injective(y as nat, x as nat);
        }
    } else {
        assert(spec_summary(Some(x))[0] == 'I');
        assert("No item selected"@[0] == 'N');
    }
}

} // verus!
