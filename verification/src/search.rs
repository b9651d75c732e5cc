//! Where a label lookup lands: the first matching child, in display order.

use crate::menu::Item;
use vstd::prelude::*;

verus! {

/// Does the item carry this label?
pub open spec fn label_matches(item: Item, label: Seq<char>) -> bool {
    item.spec_label() == label
}

/// Is the item a subtree carrying this label?
pub open spec fn subtree_matches(item: Item, label: Seq<char>) -> bool {
    label_matches(item, label) && item is Subtree
}

/// Index of the first child carrying this label.
pub open spec fn first_label_match(s: Seq<Item>, label: Seq<char>) -> Option<int>
    decreases s.len(),
{
    if s.len() == 0 {
        None
    } else if label_matches(s[0], label) {
        Some(0int)
    } else {
        match first_label_match(s.subrange(1, s.len() as int), label) {
            Some(j) => Some(j + 1),
            None => None,
        }
    }
}

/// Index of the first child that both carries this label and is a subtree.
/// A leaf or delimiter with a matching label is skipped.
pub open spec fn first_subtree_match(s: Seq<Item>, label: Seq<char>) -> Option<int>
    decreases s.len(),
{
    if s.len() == 0 {
        None
    } else if subtree_matches(s[0], label) {
        Some(0int)
    } else {
        match first_subtree_match(s.subrange(1, s.len() as int), label) {
            Some(j) => Some(j + 1),
            None => None,
        }
    }
}

/// What `first_label_match` returns: the first index whose item carries the
/// label, or nothing when no item does.
pub proof fn lemma_first_label_match(s: Seq<Item>, label: Seq<char>)
    ensures
        match first_label_match(s, label) {
            Some(j) => 0 <= j < s.len() && label_matches(s[j], label) && (forall|k: int|
                0 <= k < j ==> !label_matches(s[k], label)),
            None => forall|k: int| 0 <= k < s.len() ==> !label_matches(s[k], label),
        },
    decreases s.len(),
{
    if s.len() > 0 && !label_matches(s[0], label) {
        let rest = s.subrange(1, s.len() as int);
        lemma_first_label_match(rest, label);
        assert forall|k: int| 1 <= k < s.len() implies s[k] == rest[k - 1] by {}
    }
}

/// The first label match is exactly the index with a match and none before it.
pub proof fn lemma_first_label_match_is(s: Seq<Item>, label: Seq<char>, j: int)
    requires
        0 <= j < s.len(),
        label_matches(s[j], label),
        forall|k: int| 0 <= k < j ==> !label_matches(s[k], label),
    ensures
        first_label_match(s, label) == Some(j),
{
    lemma_first_label_match(s, label);
    match first_label_match(s, label) {
        Some(j2) => {
            if j2 < j {
                assert(!label_matches(s[j2], label));
            }
            if j < j2 {
                assert(!label_matches(s[j], label));
            }
        },
        None => {
            assert(!label_matches(s[j], label));
        },
    }
}

/// When no item carries the label, there is no first label match.
pub proof fn lemma_first_label_match_none(s: Seq<Item>, label: Seq<char>)
    requires
        forall|k: int| 0 <= k < s.len() ==> !label_matches(s[k], label),
    ensures
        first_label_match(s, label) is None,
{
    lemma_first_label_match(s, label);
    match first_label_match(s, label) {
        Some(j) => {
            assert(!label_matches(s[j], label));
        },
        None => {},
    }
}

/// What `first_subtree_match` returns: the first index whose item is a
/// subtree carrying the label, or nothing when no item is.
pub proof fn lemma_first_subtree_match(s: Seq<Item>, label: Seq<char>)
    ensures
        match first_subtree_match(s, label) {
            Some(j) => 0 <= j < s.len() && subtree_matches(s[j], label) && (forall|k: int|
                0 <= k < j ==> !subtree_matches(s[k], label)),
            None => forall|k: int| 0 <= k < s.len() ==> !subtree_matches(s[k], label),
        },
    decreases s.len(),
{
    if s.len() > 0 && !subtree_matches(s[0], label) {
        let rest = s.subrange(1, s.len() as int);
        lemma_first_subtree_match(rest, label);
        assert forall|k: int| 1 <= k < s.len() implies s[k] == rest[k - 1] by {}
    }
}

/// The first subtree match is exactly the index with a match and none before
/// it.
pub proof fn lemma_first_subtree_match_is(s: Seq<Item>, label: Seq<char>, j: int)
    requires
        0 <= j < s.len(),
        subtree_matches(s[j], label),
        forall|k: int| 0 <= k < j ==> !subtree_matches(s[k], label),
    ensures
        first_subtree_match(s, label) == Some(j),
{
    lemma_first_subtree_match(s, label);
    match first_subtree_match(s, label) {
        Some(j2) => {
            if j2 < j {
                assert(!subtree_matches(s[j2], label));
            }
            if j < j2 {
                assert(!subtree_matches(s[j], label));
            }
        },
        None => {
            assert(!subtree_matches(s[j], label));
        },
    }
}

/// When no item is a subtree carrying the label, there is no first subtree
/// match.
pub proof fn lemma_first_subtree_match_none(s: Seq<Item>, label: Seq<char>)
    requires
        forall|k: int| 0 <= k < s.len() ==> !subtree_matches(s[k], label),
    ensures
        first_subtree_match(s, label) is None,
{
    lemma_first_subtree_match(s, label);
    match first_subtree_match(s, label) {
        Some(j) => {
            assert(!subtree_matches(s[j], label));
        },
        None => {},
    }
}

} // verus!
