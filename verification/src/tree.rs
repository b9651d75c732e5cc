//! Operations of one menu level: building, editing and querying the ordered
//! list of children.

use crate::menu::subtree_item;
use crate::menu::Callback;
use crate::menu::Item;
use crate::menu::Tree;
use crate::search::first_label_match;
use crate::search::first_subtree_match;
use crate::search::label_matches;
use crate::search::lemma_first_label_match_is;
use crate::search::lemma_first_label_match_none;
use crate::search::lemma_first_subtree_match_is;
use crate::search::lemma_first_subtree_match_none;
use crate::search::subtree_matches;
use crate::text::str_eq;
use vstd::prelude::*;

verus! {

impl Tree {
    /// Creates a new, empty tree.
    pub fn new() -> (res: Self)
        ensures
            res@ == Seq::<Item>::empty(),
    {
        Tree { children: Vec::new() }
    }

    /// Removes every child from this tree.
    pub fn clear(&mut self)
        ensures
            final(self)@ == Seq::<Item>::empty(),
    {
        self.children.clear();
    }

    /// Inserts an item at the given position.
    ///
    /// Calling this with `i` past the end is a caller error; the bound is a
    /// precondition, not a runtime check.
    pub fn insert(&mut self, i: usize, item: Item)
        requires
            i <= old(self)@.len(),
        ensures
            final(self)@ == old(self)@.insert(i as int, item),
    {
        self.children.insert(i, item);
    }

    /// Inserts a delimiter at the given position.
    pub fn insert_delimiter(&mut self, i: usize)
        requires
            i <= old(self)@.len(),
        ensures
            final(self)@ == old(self)@.insert(i as int, Item::Delimiter),
    {
        self.insert(i, Item::Delimiter);
    }

    /// Adds a delimiter to the end of this tree.
    pub fn add_delimiter(&mut self)
        ensures
            final(self)@ == old(self)@.push(Item::Delimiter),
    {
        let i = self.children.len();
        self.insert_delimiter(i);
        proof {
            assert(final(self)@ =~= old(self)@.push(Item::Delimiter));
        }
    }

    /// Adds a delimiter to the end of this tree - chainable variant.
    #[must_use]
    pub fn delimiter(self) -> (res: Self)
        ensures
            res@ == self@.push(Item::Delimiter),
    {
        let mut menu = self;
        menu.add_delimiter();
        menu
    }

    /// Adds an actionable leaf to the end of this tree.
    pub fn add_leaf(&mut self, label: String, cb: Callback)
        ensures
            final(self)@ == old(self)@.push(Item::Leaf { label, cb, enabled: true }),
    {
        let i = self.children.len();
        self.insert_leaf(i, label, cb);
        proof {
            assert(final(self)@ =~= old(self)@.push(Item::Leaf { label, cb, enabled: true }));
        }
    }

    /// Inserts a leaf at the given position.
    pub fn insert_leaf(&mut self, i: usize, label: String, cb: Callback)
        requires
            i <= old(self)@.len(),
        ensures
            final(self)@ == old(self)@.insert(i as int, Item::Leaf { label, cb, enabled: true }),
    {
        self.insert(i, Item::leaf(label, cb));
    }

    /// Adds an actionable leaf to the end of this tree - chainable variant.
    #[must_use]
    pub fn leaf(self, label: String, cb: Callback) -> (res: Self)
        ensures
            res@ == self@.push(Item::Leaf { label, cb, enabled: true }),
    {
        let mut menu = self;
        menu.add_leaf(label, cb);
        menu
    }

    /// Inserts a subtree at the given position, wrapping `tree` in a fresh
    /// shared handle.
    pub fn insert_subtree(&mut self, i: usize, label: String, tree: Tree)
        requires
            i <= old(self)@.len(),
        ensures
            final(self)@.len() == old(self)@.len() + 1,
            subtree_item(final(self)@[i as int], label@, tree, true),
            final(self)@ == old(self)@.insert(i as int, final(self)@[i as int]),
    {
        let item = Item::subtree(label, tree);
        self.insert(i, item);
    }

    /// Adds a submenu to the end of this tree.
    pub fn add_subtree(&mut self, label: String, tree: Tree)
        ensures
            final(self)@.len() == old(self)@.len() + 1,
            subtree_item(final(self)@.last(), label@, tree, true),
            final(self)@ == old(self)@.push(final(self)@.last()),
    {
        let i = self.children.len();
        self.insert_subtree(i, label, tree);
        proof {
            assert(final(self)@ =~= old(self)@.push(final(self)@.last()));
        }
    }

    /// Adds a submenu to the end of this tree - chainable variant.
    #[must_use]
    pub fn subtree(self, label: String, tree: Tree) -> (res: Self)
        ensures
            res@.len() == self@.len() + 1,
            subtree_item(res@.last(), label@, tree, true),
            res@ == self@.push(res@.last()),
    {
        let mut menu = self;
        menu.add_subtree(label, tree);
        menu
    }

    /// Adds an item to the end of this tree.
    ///
    /// Chainable variant.
    #[must_use]
    pub fn item(self, item: Item) -> (res: Self)
        ensures
            res@ == self@.push(item),
    {
        let mut menu = self;
        menu.add_item(item);
        menu
    }

    /// Adds an item to the end of this tree.
    pub fn add_item(&mut self, item: Item)
        ensures
            final(self)@ == old(self)@.push(item),
    {
        let i = self.children.len();
        self.insert(i, item);
        proof {
            assert(final(self)@ =~= old(self)@.push(item));
        }
    }

    /// Looks for the child at the given position.
    ///
    /// Returns `None` if `i >= self.len()`.
    pub fn get_mut(&mut self, i: usize) -> (r: Option<&mut Item>)
        ensures
            i < old(self)@.len() ==> r.is_some() && *r.unwrap() == old(self)@[i as int]
                && final(self)@ == old(self)@.update(i as int, *final(r.unwrap())),
            i >= old(self)@.len() ==> r.is_none() && final(self)@ == old(self)@,
    {
        if i < self.children.len() {
            Some(&mut self.children[i])
        } else {
            None
        }
    }

    /// Returns the nested tree of the child at the given position.
    ///
    /// Returns `None` if `i` is out of range or the item there is not a
    /// subtree. Otherwise the nested tree is made private first
    /// (copy-on-write), so mutation through the result is never seen by other
    /// holders of a shared tree.
    pub fn get_subtree(&mut self, i: usize) -> (r: Option<&mut Tree>)
        ensures
            (i < old(self)@.len() && old(self)@[i as int] is Subtree) ==> {
                &&& r.is_some()
                &&& (*r.unwrap())@ == old(self)@[i as int].spec_tree()@
                &&& final(self)@ == old(self)@.update(i as int, final(self)@[i as int])
                &&& final(self)@[i as int] is Subtree
                &&& final(self)@[i as int].spec_label() == old(self)@[i as int].spec_label()
                &&& final(self)@[i as int].spec_enabled() == old(self)@[i as int].spec_enabled()
                &&& final(self)@[i as int].spec_tree() == *final(r.unwrap())
            },
            !(i < old(self)@.len() && old(self)@[i as int] is Subtree) ==> r.is_none()
                && final(self)@ == old(self)@,
    {
        let r = match self.get_mut(i) {
            Some(item) => item.as_subtree(),
            None => None,
        };
        proof {
            if i < old(self)@.len() {
                assert(old(self)@.update(i as int, old(self)@[i as int]) =~= old(self)@);
            }
        }
        r
    }

    /// Looks for a child with the given label.
    ///
    /// Returns `None` if no child carries it; otherwise the first match, in
    /// display order, wins.
    pub fn find_item(&mut self, label: &str) -> (r: Option<&mut Item>)
        ensures
            match first_label_match(old(self)@, label@) {
                Some(j) => r.is_some() && *r.unwrap() == old(self)@[j]
                    && final(self)@ == old(self)@.update(j, *final(r.unwrap())),
                None => r.is_none() && final(self)@ == old(self)@,
            },
    {
        let n = self.children.len();
        let mut i: usize = 0;
        while i < n
            invariant
                self@ == old(self)@,
                n == self@.len(),
                0 <= i <= n,
                forall|k: int| 0 <= k < i ==> !label_matches(self@[k], label@),
            decreases n - i,
        {
            if str_eq(self.children[i].label(), label) {
                proof {
                    lemma_first_label_match_is(self@, label@, i as int);
                }
                return self.get_mut(i);
            }
            i += 1;
        }
        proof {
            lemma_first_label_match_none(self@, label@);
        }
        None
    }

    /// Looks for a subtree with the given label.
    ///
    /// The first child that both carries the label and is a subtree wins; a
    /// leaf or delimiter with a matching label is skipped. A found tree is
    /// made private first (copy-on-write), as with `get_subtree`.
    pub fn find_subtree(&mut self, label: &str) -> (r: Option<&mut Tree>)
        ensures
            match first_subtree_match(old(self)@, label@) {
                Some(j) => {
                    &&& r.is_some()
                    &&& (*r.unwrap())@ == old(self)@[j].spec_tree()@
                    &&& final(self)@ == old(self)@.update(j, final(self)@[j])
                    &&& final(self)@[j] is Subtree
                    &&& final(self)@[j].spec_label() == old(self)@[j].spec_label()
                    &&& final(self)@[j].spec_enabled() == old(self)@[j].spec_enabled()
                    &&& final(self)@[j].spec_tree() == *final(r.unwrap())
                },
                None => r.is_none() && final(self)@ == old(self)@,
            },
    {
        let n = self.children.len();
        let mut i: usize = 0;
        while i < n
            invariant
                self@ == old(self)@,
                n == self@.len(),
                0 <= i <= n,
                forall|k: int| 0 <= k < i ==> !subtree_matches(self@[k], label@),
            decreases n - i,
        {
            let is_sub = self.children[i].is_subtree();
            if is_sub && str_eq(self.children[i].label(), label) {
                proof {
                    lemma_first_subtree_match_is(self@, label@, i as int);
                }
                return self.get_subtree(i);
            }
            i += 1;
        }
        proof {
            lemma_first_subtree_match_none(self@, label@);
        }
        None
    }

    /// Returns the position of the first child with the given label.
    ///
    /// Returns `None` if no child carries it.
    pub fn find_position(&mut self, label: &str) -> (r: Option<usize>)
        ensures
            final(self)@ == old(self)@,
            match first_label_match(old(self)@, label@) {
                Some(j) => r == Some(j as usize),
                None => r is None,
            },
    {
        let n = self.children.len();
        let mut i: usize = 0;
        while i < n
            invariant
                self@ == old(self)@,
                n == self@.len(),
                0 <= i <= n,
                forall|k: int| 0 <= k < i ==> !label_matches(self@[k], label@),
            decreases n - i,
        {
            if str_eq(self.children[i].label(), label) {
                proof {
                    lemma_first_label_match_is(self@, label@, i as int);
                }
                return Some(i);
            }
            i += 1;
        }
        proof {
            lemma_first_label_match_none(self@, label@);
        }
        None
    }

    /// Removes the item at the given position.
    ///
    /// Calling this with `i` out of range is a caller error; the bound is a
    /// precondition, not a runtime check. Within the bound the other children
    /// keep their order.
    pub fn remove(&mut self, i: usize)
        requires
            i < old(self)@.len(),
        ensures
            final(self)@ == old(self)@.remove(i as int),
    {
        self.children.remove(i);
    }

    /// Returns the number of direct children of this tree.
    ///
    /// Delimiters count; nested children do not.
    pub fn len(&self) -> (res: usize)
        ensures
            res == self@.len(),
    {
        self.children.len()
    }

    /// Returns `true` if this tree has no children.
    pub fn is_empty(&self) -> (res: bool)
        ensures
            res == (self@.len() == 0),
    {
        self.children.is_empty()
    }
}

impl Default for Tree {
    /// The default tree is empty.
    fn default() -> (res: Self)
        ensures
            res@ == Seq::<Item>::empty(),
    {
        Tree::new()
    }
}

} // verus!
