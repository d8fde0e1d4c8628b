use pets::appearance::{describe_appearance, join_with_commas, size_for_level};
use pets::mood::PetMood;
use pets::species::PetSpecies;
use pets::tags::add_unique;

#[test]
fn appearance_includes_details() {
    // A new cat with a bow that has learnt "sit" is still in a happy mood.
    let mut accessories: Vec<String> = Vec::new();
    let mut tricks: Vec<String> = Vec::new();
    add_unique(&mut accessories, "bow");
    add_unique(&mut tricks, "sit");
    let desc = describe_appearance("Fluffy", PetSpecies::Cat, 1, PetMood::Happy, &accessories, &tricks);
    assert!(desc.contains("Fluffy"));
    assert!(desc.contains("Cat"));
    assert!(desc.contains("bow"));
    assert!(desc.contains("sit"));
    assert_eq!(
        desc,
        "Fluffy the small Cat is happily wagging its tail. Wearing bow. Knows tricks: sit."
    );
}

#[test]
fn appearance_without_accessories_or_tricks() {
    let none: Vec<String> = Vec::new();
    let desc = describe_appearance("Rex", PetSpecies::Dragon, 12, PetMood::Hungry, &none, &none);
    assert_eq!(desc, "Rex the magnificent Dragon is looking around for food.");
}

#[test]
fn appearance_lists_items_in_order() {
    let accessories = vec!["hat".to_string(), "scarf".to_string(), "bell".to_string()];
    let none: Vec<String> = Vec::new();
    let desc = describe_appearance("Ash", PetSpecies::Fox, 5, PetMood::Curious, &accessories, &none);
    assert_eq!(
        desc,
        "Ash the medium-sized Fox is tilting its head inquisitively. Wearing hat, scarf, bell."
    );
    let tricks = vec!["roll".to_string(), "fetch".to_string()];
    let desc = describe_appearance("Ash", PetSpecies::Owl, 8, PetMood::Loyal, &none, &tricks);
    assert_eq!(
        desc,
        "Ash the large Owl is gazing at you devotedly. Knows tricks: roll, fetch."
    );
}

#[test]
fn size_tiers() {
    assert_eq!(size_for_level(0), "magnificent");
    assert_eq!(size_for_level(1), "small");
    assert_eq!(size_for_level(3), "small");
    assert_eq!(size_for_level(4), "medium-sized");
    assert_eq!(size_for_level(6), "medium-sized");
    assert_eq!(size_for_level(7), "large");
    assert_eq!(size_for_level(9), "large");
    assert_eq!(size_for_level(10), "magnificent");
    assert_eq!(size_for_level(u32::MAX), "magnificent");
}

#[test]
fn joining() {
    let empty: Vec<String> = Vec::new();
    assert_eq!(join_with_commas(&empty), "");
    assert_eq!(join_with_commas(&vec!["a".to_string()]), "a");
    assert_eq!(join_with_commas(&vec!["a".to_string(), "b c".to_string()]), "a, b c");
}
