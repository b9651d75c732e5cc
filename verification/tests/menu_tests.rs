use menu_tree::Callback;
use menu_tree::Item;
use menu_tree::Tree;

fn cb(id: u64) -> Callback {
    Callback::new(id)
}

#[test]
fn new_tree_is_empty() {
    let t = Tree::new();
    assert_eq!(t.len(), 0);
    assert!(t.is_empty());
}

#[test]
fn default_tree_is_empty() {
    let t = Tree::default();
    assert!(t.is_empty());
}

#[test]
fn appends_keep_call_order() {
    let mut t = Tree::new();
    t.add_leaf(String::from("File"), cb(1));
    t.add_subtree(String::from("Edit"), Tree::new());
    t.add_delimiter();
    t.add_leaf(String::from("View"), cb(2));
    assert_eq!(t.len(), 4);
    assert!(!t.is_empty());
    assert_eq!(t.get_mut(0).unwrap().label(), "File");
    assert_eq!(t.get_mut(1).unwrap().label(), "Edit");
    assert!(t.get_mut(2).unwrap().is_delimiter());
    assert_eq!(t.get_mut(3).unwrap().label(), "View");
}

#[test]
fn chainable_builders_match_appends() {
    let mut t = Tree::new()
        .leaf(String::from("Open"), cb(1))
        .delimiter()
        .subtree(String::from("Recent"), Tree::new())
        .item(Item::leaf(String::from("Quit"), cb(2)));
    assert_eq!(t.len(), 4);
    assert_eq!(t.get_mut(0).unwrap().label(), "Open");
    assert!(t.get_mut(0).unwrap().is_leaf());
    assert!(t.get_mut(1).unwrap().is_delimiter());
    assert!(t.get_mut(2).unwrap().is_subtree());
    assert_eq!(t.get_mut(3).unwrap().label(), "Quit");
}

#[test]
fn insert_then_remove_restores_sequence() {
    let mut t = Tree::new();
    t.add_leaf(String::from("a"), cb(1));
    t.add_delimiter();
    t.add_leaf(String::from("b"), cb(2));
    t.insert_leaf(1, String::from("x"), cb(9));
    assert_eq!(t.len(), 4);
    assert_eq!(t.get_mut(1).unwrap().label(), "x");
    t.remove(1);
    assert_eq!(t.len(), 3);
    assert_eq!(t.get_mut(0).unwrap().label(), "a");
    assert!(t.get_mut(1).unwrap().is_delimiter());
    assert_eq!(t.get_mut(2).unwrap().label(), "b");
}

#[test]
fn positional_inserts() {
    let mut t = Tree::new();
    t.insert(0, Item::leaf(String::from("z"), cb(1)));
    t.insert_delimiter(0);
    t.insert_subtree(1, String::from("m"), Tree::new());
    assert_eq!(t.len(), 3);
    assert!(t.get_mut(0).unwrap().is_delimiter());
    assert_eq!(t.get_mut(1).unwrap().label(), "m");
    assert_eq!(t.get_mut(2).unwrap().label(), "z");
}

#[test]
fn clear_empties_the_tree() {
    let mut t = Tree::new();
    t.add_leaf(String::from("a"), cb(1));
    t.add_delimiter();
    t.clear();
    assert_eq!(t.len(), 0);
    assert!(t.is_empty());
}

#[test]
fn delimiter_label_is_vertical_bar() {
    let mut t = Tree::new();
    t.add_delimiter();
    assert_eq!(t.get_mut(0).unwrap().label(), "│");
}

#[test]
fn delimiter_is_never_enabled_and_disable_is_noop() {
    let mut item = Item::Delimiter;
    assert!(!item.is_enabled());
    item.disable();
    assert!(item.is_delimiter());
    assert!(!item.is_enabled());
    assert_eq!(item.label(), "│");
    let again = item.disabled();
    assert!(again.is_delimiter());
    assert!(!again.is_enabled());
}

#[test]
fn leaf_enabled_until_disabled() {
    let mut item = Item::leaf(String::from("Copy"), cb(1));
    assert!(item.is_leaf());
    assert!(!item.is_delimiter());
    assert!(!item.is_subtree());
    assert!(item.is_enabled());
    assert_eq!(item.label(), "Copy");
    item.disable();
    assert!(!item.is_enabled());
    assert_eq!(item.label(), "Copy");
}

#[test]
fn disabled_builder_clears_the_flag() {
    let item = Item::subtree(String::from("Edit"), Tree::new()).disabled();
    assert!(item.is_subtree());
    assert!(!item.is_enabled());
    assert_eq!(item.label(), "Edit");
}

#[test]
fn find_position_first_match_wins() {
    let mut t = Tree::new();
    t.add_leaf(String::from("File"), cb(1));
    t.add_leaf(String::from("Edit"), cb(2));
    t.add_leaf(String::from("View"), cb(3));
    assert_eq!(t.find_position("Edit"), Some(1));
    assert_eq!(t.find_position("Help"), None);
}

#[test]
fn find_position_duplicate_labels() {
    let mut t = Tree::new();
    t.add_leaf(String::from("Redo"), cb(1));
    t.add_leaf(String::from("Undo"), cb(2));
    t.add_leaf(String::from("Undo"), cb(3));
    assert_eq!(t.find_position("Undo"), Some(1));
}

#[test]
fn find_item_returns_first_match() {
    let mut t = Tree::new();
    t.add_leaf(String::from("Cut"), cb(1));
    t.add_leaf(String::from("Cut"), cb(2));
    {
        let item = t.find_item("Cut").unwrap();
        item.disable();
    }
    assert!(!t.get_mut(0).unwrap().is_enabled());
    assert!(t.get_mut(1).unwrap().is_enabled());
    assert!(t.find_item("Paste").is_none());
}

#[test]
fn find_item_sees_delimiter_label() {
    let mut t = Tree::new();
    t.add_leaf(String::from("File"), cb(1));
    t.add_delimiter();
    let item = t.find_item("│").unwrap();
    assert!(item.is_delimiter());
}

#[test]
fn find_subtree_skips_matching_leaf() {
    let mut t = Tree::new();
    t.add_leaf(String::from("Edit"), cb(1));
    assert!(t.find_subtree("Edit").is_none());
    assert!(t.find_position("Edit").is_some());
}

#[test]
fn find_subtree_skips_leaf_but_finds_later_subtree() {
    let mut t = Tree::new();
    t.add_leaf(String::from("Edit"), cb(1));
    t.add_subtree(String::from("Edit"), Tree::new().leaf(String::from("Undo"), cb(2)));
    let sub = t.find_subtree("Edit").unwrap();
    assert_eq!(sub.len(), 1);
}

#[test]
fn get_mut_out_of_range_is_none() {
    let mut t = Tree::new();
    t.add_leaf(String::from("a"), cb(1));
    assert!(t.get_mut(1).is_none());
    assert!(t.get_mut(0).is_some());
}

#[test]
fn get_subtree_on_non_subtree_is_none() {
    let mut t = Tree::new();
    t.add_leaf(String::from("a"), cb(1));
    t.add_delimiter();
    assert!(t.get_subtree(0).is_none());
    assert!(t.get_subtree(1).is_none());
    assert!(t.get_subtree(5).is_none());
}

#[test]
fn get_subtree_hands_out_the_nested_tree() {
    let mut t = Tree::new();
    t.add_subtree(String::from("Nested"), Tree::new().leaf(String::from("x"), cb(1)));
    let sub = t.get_subtree(0).unwrap();
    assert_eq!(sub.len(), 1);
    sub.add_leaf(String::from("y"), cb(2));
    let sub2 = t.get_subtree(0).unwrap();
    assert_eq!(sub2.len(), 2);
}

#[test]
fn as_subtree_only_on_subtrees() {
    let mut leaf = Item::leaf(String::from("a"), cb(1));
    assert!(leaf.as_subtree().is_none());
    let mut delim = Item::Delimiter;
    assert!(delim.as_subtree().is_none());
    let mut sub = Item::subtree(String::from("s"), Tree::new());
    let inner = sub.as_subtree().unwrap();
    assert!(inner.is_empty());
}

#[test]
fn remove_guarded_by_len_keeps_structure() {
    let mut t = Tree::new();
    t.add_leaf(String::from("a"), cb(1));
    t.add_leaf(String::from("b"), cb(2));
    let i = 5;
    if i < t.len() {
        t.remove(i);
    }
    assert_eq!(t.len(), 2);
    assert_eq!(t.get_mut(0).unwrap().label(), "a");
    assert_eq!(t.get_mut(1).unwrap().label(), "b");
    let j = 0;
    if j < t.len() {
        t.remove(j);
    }
    assert_eq!(t.len(), 1);
    assert_eq!(t.get_mut(0).unwrap().label(), "b");
}

#[test]
fn callback_keeps_its_id() {
    let c = Callback::new(42);
    assert_eq!(c.id, 42);
    let d = c;
    assert_eq!(d.id, 42);
}
