//! A hierarchical menu model: an ordered tree of actionable entries,
//! nested submenus, and visual separators.
//!
//! A menu level is a [`Tree`] holding an ordered list of [`Item`]s:
//!
//! * `Leaf`: an actionable entry with a label and an action handle.
//! * `Subtree`: a nested [`Tree`] behind a shared, copy-on-write reference.
//! * `Delimiter`: a non-interactive separator.
//!
//! Submenus may be shared between several parent trees; the first mutable
//! access through one parent forks a private copy, so the change is never
//! seen by the other holders.

mod laws;
mod menu;
mod search;
mod text;
mod tree;

pub use laws::appended;
pub use laws::lemma_appends_in_call_order;
pub use laws::lemma_delimiter_never_enabled;
pub use laws::lemma_insert_then_remove;
pub use menu::delimiter_label;
pub use menu::subtree_item;
pub use menu::Callback;
pub use menu::Item;
pub use menu::Tree;
pub use search::first_label_match;
pub use search::first_subtree_match;
pub use search::label_matches;
pub use search::subtree_matches;
pub use text::str_eq;
