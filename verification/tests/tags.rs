use pets::tags::{add_unique, contains_tag};

#[test]
fn teach_trick() {
    let mut tricks: Vec<String> = Vec::new();
    // The first time the trick is new: the pet trains once.
    assert!(add_unique(&mut tricks, "sit"));
    assert_eq!(tricks, vec!["sit"]);
    // No duplicates, and no second training.
    assert!(!add_unique(&mut tricks, "sit"));
    assert_eq!(tricks, vec!["sit"]);
}

#[test]
fn add_accessory() {
    let mut accessories: Vec<String> = Vec::new();
    add_unique(&mut accessories, "bow");
    assert_eq!(accessories, vec!["bow"]);
    add_unique(&mut accessories, "bow");
    assert_eq!(accessories, vec!["bow"]);
}

#[test]
fn distinct_items_are_kept_in_order() {
    let mut items: Vec<String> = Vec::new();
    assert!(add_unique(&mut items, "b"));
    assert!(add_unique(&mut items, "a"));
    assert!(!add_unique(&mut items, "b"));
    assert!(add_unique(&mut items, "B"));
    assert!(add_unique(&mut items, ""));
    assert!(!add_unique(&mut items, ""));
    assert_eq!(items, vec!["b", "a", "B", ""]);
    assert!(contains_tag(&items, "a"));
    assert!(!contains_tag(&items, "c"));
}
