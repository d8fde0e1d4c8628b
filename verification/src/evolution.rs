use vstd::prelude::*;

use crate::species::PetSpecies;

verus! {

/// A possible evolution from one species into another, with the level a
/// pet must have reached.
#[derive(Debug, Clone, Copy, PartialEq, Eq, Structural)]
pub struct EvolutionPath {
    pub from_species: PetSpecies,
    pub to_species: PetSpecies,
    pub min_level: u32,
}

/// An entry of the evolution table: a path and the bond, in hundredths,
/// that a pet must have to take it.
#[derive(Debug, Clone, Copy, PartialEq, Eq, Structural)]
pub struct EvolutionRule {
    pub path: EvolutionPath,
    pub min_bond_percent: u32,
}

/// The built-in evolution table.
pub open spec fn rule_table() -> Seq<EvolutionRule> {
    seq![
        EvolutionRule {
            path: EvolutionPath {
                from_species: PetSpecies::Cat,
                to_species: PetSpecies::Unicorn,
                min_level: 5,
            },
            min_bond_percent: 50,
        },
        EvolutionRule {
            path: EvolutionPath {
                from_species: PetSpecies::Turtle,
                to_species: PetSpecies::Dragon,
                min_level: 8,
            },
            min_bond_percent: 60,
        },
        EvolutionRule {
            path: EvolutionPath {
                from_species: PetSpecies::Fox,
                to_species: PetSpecies::Phoenix,
                min_level: 10,
            },
            min_bond_percent: 70,
        },
        EvolutionRule {
            path: EvolutionPath {
                from_species: PetSpecies::Wolf,
                to_species: PetSpecies::Unicorn,
                min_level: 7,
            },
            min_bond_percent: 60,
        },
        EvolutionRule {
            path: EvolutionPath {
                from_species: PetSpecies::Robot,
                to_species: PetSpecies::Eagle,
                min_level: 12,
            },
            min_bond_percent: 80,
        },
    ]
}

/// The built-in evolution table, in order.
pub fn evolution_rules() -> (r: Vec<EvolutionRule>)
    ensures
        r@ == rule_table(),
{
    let r = vec![
        EvolutionRule {
            path: EvolutionPath {
                from_species: PetSpecies::Cat,
                to_species: PetSpecies::Unicorn,
                min_level: 5,
            },
            min_bond_percent: 50,
        },
        EvolutionRule {
            path: EvolutionPath {
                from_species: PetSpecies::Turtle,
                to_species: PetSpecies::Dragon,
                min_level: 8,
            },
            min_bond_percent: 60,
        },
        EvolutionRule {
            path: EvolutionPath {
                from_species: PetSpecies::Fox,
                to_species: PetSpecies::Phoenix,
                min_level: 10,
            },
            min_bond_percent: 70,
        },
        EvolutionRule {
            path: EvolutionPath {
                from_species: PetSpecies::Wolf,
                to_species: PetSpecies::Unicorn,
                min_level: 7,
            },
            min_bond_percent: 60,
        },
        EvolutionRule {
            path: EvolutionPath {
                from_species: PetSpecies::Robot,
                to_species: PetSpecies::Eagle,
                min_level: 12,
            },
            min_bond_percent: 80,
        },
    ];
    assert(r@ =~= rule_table());
    r
}

impl EvolutionPath {
    /// Whether a pet of the given species and level may take this path, as
    /// far as its species and level go.
    pub fn admits(&self, species: PetSpecies, level: u32) -> (r: bool)
        ensures
            r == (species == self.from_species && level >= self.min_level),
    {
        species == self.from_species && level >= self.min_level
    }
}

} // verus!
