use pets::evolution::{evolution_rules, EvolutionPath};
use pets::species::PetSpecies;

#[test]
fn all_evolutions_count() {
    assert_eq!(evolution_rules().len(), 5);
}

#[test]
fn evolution_table_entries() {
    let rules = evolution_rules();
    let expected = [
        (PetSpecies::Cat, PetSpecies::Unicorn, 5, 50),
        (PetSpecies::Turtle, PetSpecies::Dragon, 8, 60),
        (PetSpecies::Fox, PetSpecies::Phoenix, 10, 70),
        (PetSpecies::Wolf, PetSpecies::Unicorn, 7, 60),
        (PetSpecies::Robot, PetSpecies::Eagle, 12, 80),
    ];
    for (rule, (from, to, level, bond)) in rules.iter().zip(expected) {
        assert_eq!(rule.path.from_species, from);
        assert_eq!(rule.path.to_species, to);
        assert_eq!(rule.path.min_level, level);
        assert_eq!(rule.min_bond_percent, bond);
    }
}

#[test]
fn evolution_can_evolve_check() {
    let evo = EvolutionPath {
        from_species: PetSpecies::Cat,
        to_species: PetSpecies::Unicorn,
        min_level: 5,
    };
    // A new pet is at level 1: too low.
    assert!(!evo.admits(PetSpecies::Cat, 1));
    assert!(evo.admits(PetSpecies::Cat, 5));
    assert!(evo.admits(PetSpecies::Cat, 6));
    assert!(!evo.admits(PetSpecies::Cat, 4));
}

#[test]
fn evolution_fails_wrong_species() {
    let evo = EvolutionPath {
        from_species: PetSpecies::Cat,
        to_species: PetSpecies::Unicorn,
        min_level: 5,
    };
    assert!(!evo.admits(PetSpecies::Wolf, 10));
}
