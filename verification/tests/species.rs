use pets::mood::PetMood;
use pets::species::PetSpecies;

#[test]
fn species_name() {
    assert_eq!(PetSpecies::Dragon.name(), "Dragon");
    assert_eq!(PetSpecies::Robot.name(), "Robot");
}

#[test]
fn every_species_is_named_after_its_variant() {
    let all = [
        (PetSpecies::Dragon, "Dragon"),
        (PetSpecies::Phoenix, "Phoenix"),
        (PetSpecies::Wolf, "Wolf"),
        (PetSpecies::Owl, "Owl"),
        (PetSpecies::Fox, "Fox"),
        (PetSpecies::Cat, "Cat"),
        (PetSpecies::Turtle, "Turtle"),
        (PetSpecies::Eagle, "Eagle"),
        (PetSpecies::Unicorn, "Unicorn"),
        (PetSpecies::Robot, "Robot"),
    ];
    for (species, name) in all {
        assert_eq!(species.name(), name);
        assert_eq!(format!("{:?}", species), name);
    }
}

#[test]
fn mood_phrases() {
    assert_eq!(PetMood::Happy.phrase(), "happily wagging its tail");
    assert_eq!(PetMood::Hungry.phrase(), "looking around for food");
    assert_eq!(PetMood::Sleepy.phrase(), "drowsily blinking its eyes");
    assert_eq!(PetMood::Excited.phrase(), "bouncing with energy");
    assert_eq!(PetMood::Curious.phrase(), "tilting its head inquisitively");
    assert_eq!(PetMood::Loyal.phrase(), "gazing at you devotedly");
}
