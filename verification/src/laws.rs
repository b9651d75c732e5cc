//! Laws of the menu model, stated over the views that the operation
//! contracts use.

use crate::menu::Item;
use vstd::prelude::*;

verus! {

/// The children of a tree built by appending each of `calls` in turn, as the
/// append operations (`add_item`, `add_leaf`, `add_subtree`, `add_delimiter`
/// and their chainable variants) produce them: each call pushes its item onto
/// the end of the previous state.
pub open spec fn appended(calls: Seq<Item>) -> Seq<Item>
    decreases calls.len(),
{
    if calls.len() == 0 {
        Seq::empty()
    } else {
        appended(calls.drop_last()).push(calls.last())
    }
}

/// A tree built by appends alone holds one child per call, in call order.
pub proof fn lemma_appends_in_call_order(calls: Seq<Item>)
    ensures
        appended(calls).len() == calls.len(),
        appended(calls) == calls,
    decreases calls.len(),
{
    if calls.len() == 0 {
        assert(appended(calls) =~= calls);
    } else {
        lemma_appends_in_call_order(calls.drop_last());
        assert(appended(calls) =~= calls);
    }
}

/// Inserting an item and then removing it at the same position restores the
/// prior children exactly.
pub proof fn lemma_insert_then_remove(s: Seq<Item>, i: int, item: Item)
    requires
        0 <= i <= s.len(),
    ensures
        s.insert(i, item).remove(i) == s,
{
    assert(s.insert(i, item).remove(i) =~= s);
}

/// A delimiter is never enabled, and disabling one changes nothing, whatever
/// came before.
pub proof fn lemma_delimiter_never_enabled(item: Item)
    requires
        item is Delimiter,
    ensures
        !item.spec_enabled(),
        item.spec_disabled() == item,
{
}

} // verus!
