//! The menu data model: [`Tree`], [`Item`] and the opaque [`Callback`] handle.

use std::rc::Rc;
use vstd::pervasive::arbitrary;
use vstd::prelude::*;

verus! {

/// An opaque handle to a host-side action.
///
/// The menu stores the handle without interpreting or invoking it; the host
/// maps each handle to the action to run when the entry is activated. The
/// handle is freely copyable, so one action can be triggered many times.
#[derive(Clone, Copy, PartialEq, Eq, Structural)]
pub struct Callback {
    /// Host-chosen identifier of the action.
    pub id: u64,
}

impl Callback {
    /// Wraps a host-chosen action identifier.
    pub fn new(id: u64) -> (res: Self)
        ensures
            res.id == id,
    {
        Callback { id }
    }
}

/// Root of a menu tree: one menu level, an ordered list of children.
pub struct Tree {
    /// Menu items, in display order.
    pub children: Vec<Item>,
}

/// Node in a menu tree.
pub enum Item {
    /// Actionable entry with a label.
    Leaf {
        /// Text displayed for this entry.
        label: String,
        /// Handle of the action to run when the entry is selected.
        cb: Callback,
        /// Whether this entry can be selected.
        enabled: bool,
    },
    /// Nested menu with a label.
    ///
    /// The nested tree is behind a shared reference: several parents may hold
    /// the same tree, and the first mutable access through one of them forks
    /// a private copy.
    Subtree {
        /// Text displayed for this entry.
        label: String,
        /// The nested menu level.
        tree: Rc<Tree>,
        /// Whether this entry can be selected.
        enabled: bool,
    },
    /// Separator between groups of related entries.
    Delimiter,
}

impl View for Tree {
    type V = Seq<Item>;

    open spec fn view(&self) -> Seq<Item> {
        self.children@
    }
}

/// The fixed display glyph of a delimiter: one vertical bar.
pub open spec fn delimiter_label() -> Seq<char> {
    seq!['│']
}

impl Item {
    /// The label as the queries see it: the stored text for a leaf or a
    /// subtree, the fixed separator glyph for a delimiter.
    pub open spec fn spec_label(&self) -> Seq<char> {
        match self {
            Item::Leaf { label, .. } => label@,
            Item::Subtree { label, .. } => label@,
            Item::Delimiter => delimiter_label(),
        }
    }

    /// Whether the item can be selected: the `enabled` flag for a leaf or a
    /// subtree, never for a delimiter.
    pub open spec fn spec_enabled(&self) -> bool {
        match self {
            Item::Leaf { enabled, .. } => *enabled,
            Item::Subtree { enabled, .. } => *enabled,
            Item::Delimiter => false,
        }
    }

    /// The shared handle to the nested tree of a subtree item.
    pub open spec fn spec_tree(&self) -> Rc<Tree> {
        match self {
            Item::Subtree { tree, .. } => *tree,
            _ => arbitrary(),
        }
    }

    /// The item with its `enabled` flag cleared; a delimiter is unchanged.
    pub open spec fn spec_disabled(self) -> Item {
        match self {
            Item::Leaf { label, cb, enabled } => Item::Leaf { label, cb, enabled: false },
            Item::Subtree { label, tree, enabled } => Item::Subtree {
                label,
                tree,
                enabled: false,
            },
            Item::Delimiter => Item::Delimiter,
        }
    }
}

/// Full description of a freshly built subtree item: a `Subtree` with the
/// given label and flag whose nested tree holds exactly `tree`'s children.
pub open spec fn subtree_item(item: Item, label: Seq<char>, tree: Tree, enabled: bool) -> bool {
    &&& item is Subtree
    &&& item.spec_label() == label
    &&& item.spec_enabled() == enabled
    &&& item.spec_tree() == tree
}

/// Relies on std's `Rc::clone`: the new handle shares the same tree.
#[verifier::external_body]
fn rc_clone(rc: &Rc<Tree>) -> (res: Rc<Tree>)
    ensures
        res == *rc,
{
    Rc::clone(rc)
}

/// Relies on std's `Rc::make_mut`: when the handle is shared it first clones
/// the tree (`Tree::clone`, which keeps the same children), so the returned
/// reference leads into this handle's own private copy and every other holder
/// keeps the original. Afterwards the handle holds exactly the tree that the
/// returned reference leaves behind.
#[verifier::external_body]
fn rc_make_mut(rc: &mut Rc<Tree>) -> (r: &mut Tree)
    ensures
        (*r)@ == (*old(rc))@,
        *final(rc) == *final(r),
{
    Rc::make_mut(rc)
}

impl Item {
    /// Creates an enabled leaf entry.
    pub fn leaf(label: String, cb: Callback) -> (res: Self)
        ensures
            res == (Item::Leaf { label, cb, enabled: true }),
    {
        Item::Leaf { label, cb, enabled: true }
    }

    /// Creates an enabled subtree entry, wrapping `tree` in a fresh shared
    /// handle.
    pub fn subtree(label: String, tree: Tree) -> (res: Self)
        ensures
            subtree_item(res, label@, tree, true),
    {
        Item::Subtree { label, tree: Rc::new(tree), enabled: true }
    }

    /// Returns the label for this item.
    ///
    /// Returns a vertical bar string if `self` is a delimiter.
    pub fn label(&self) -> (res: &str)
        ensures
            res@ == self.spec_label(),
    {
        match self {
            Item::Delimiter => {
                let glyph = "│";
                proof {
                    reveal_strlit("│");
                    assert(glyph@ =~= delimiter_label());
                }
                glyph
            },
            Item::Leaf { label, .. } => label.as_str(),
            Item::Subtree { label, .. } => label.as_str(),
        }
    }

    /// Returns true if this item is enabled.
    ///
    /// Only leaves and subtrees can be enabled; a delimiter never is.
    pub fn is_enabled(&self) -> (res: bool)
        ensures
            res == self.spec_enabled(),
    {
        match self {
            Item::Leaf { enabled, .. } => *enabled,
            Item::Subtree { enabled, .. } => *enabled,
            Item::Delimiter => false,
        }
    }

    /// Returns a disabled version of this item.
    #[must_use]
    pub fn disabled(self) -> (res: Self)
        ensures
            res == self.spec_disabled(),
    {
        let mut item = self;
        item.disable();
        item
    }

    /// Disables this item.
    ///
    /// Disabled items cannot be selected and are shown grayed out.
    ///
    /// Does not affect delimiters.
    pub fn disable(&mut self)
        ensures
            *final(self) == old(self).spec_disabled(),
    {
        match self {
            Item::Leaf { enabled, .. } => {
                *enabled = false;
            },
            Item::Subtree { enabled, .. } => {
                *enabled = false;
            },
            Item::Delimiter => {},
        }
    }

    /// Returns `true` if `self` is a delimiter.
    pub fn is_delimiter(&self) -> (res: bool)
        ensures
            res == (self is Delimiter),
    {
        matches!(self, Item::Delimiter)
    }

    /// Returns `true` if `self` is a leaf node.
    pub fn is_leaf(&self) -> (res: bool)
        ensures
            res == (self is Leaf),
    {
        matches!(self, Item::Leaf { .. })
    }

    /// Returns `true` if `self` is a subtree.
    pub fn is_subtree(&self) -> (res: bool)
        ensures
            res == (self is Subtree),
    {
        matches!(self, Item::Subtree { .. })
    }

    /// Returns a mutable reference to the nested tree, if applicable.
    ///
    /// Returns `None` if `self` is not an `Item::Subtree`. Otherwise the
    /// nested tree is made private first (copy-on-write): other holders of a
    /// shared tree are unaffected by mutation through the result.
    pub fn as_subtree(&mut self) -> (r: Option<&mut Tree>)
        ensures
            *old(self) is Subtree ==> {
                &&& r.is_some()
                &&& (*r.unwrap())@ == old(self).spec_tree()@
                &&& *final(self) is Subtree
                &&& final(self).spec_label() == old(self).spec_label()
                &&& final(self).spec_enabled() == old(self).spec_enabled()
                &&& final(self).spec_tree() == *final(r.unwrap())
            },
            !(*old(self) is Subtree) ==> r.is_none() && *final(self) == *old(self),
    {
        match self {
            Item::Subtree { tree, .. } => Some(rc_make_mut(tree)),
            _ => None,
        }
    }
}

impl Clone for Item {
    /// A cloned item equals the original; a subtree item shares its nested
    /// tree with the original (copy-on-write defers the copy to the first
    /// mutable access).
    fn clone(&self) -> (res: Self)
        ensures
            res == *self,
    {
        match self {
            Item::Leaf { label, cb, enabled } => Item::Leaf {
                label: label.clone(),
                cb: *cb,
                enabled: *enabled,
            },
            Item::Subtree { label, tree, enabled } => Item::Subtree {
                label: label.clone(),
                tree: rc_clone(tree),
                enabled: *enabled,
            },
            Item::Delimiter => Item::Delimiter,
        }
    }
}

impl Clone for Tree {
    /// A cloned tree holds the same children; nested trees stay shared until
    /// first mutable access.
    fn clone(&self) -> (res: Self)
        ensures
            res@ == self@,
    {
        let children = self.children.clone();
        proof {
            assert forall|i: int| 0 <= i < self.children@.len() implies children@[i]
                == self.children@[i] by {
                assert(cloned::<Item>(self.children@[i], children@[i]));
            }
            assert(children@ =~= self.children@);
        }
        Tree { children }
    }
}

} // verus!
