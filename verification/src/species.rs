use vstd::prelude::*;

verus! {

/// Available pet species that a player can adopt.
#[derive(Debug, Clone, Copy, PartialEq, Eq, Hash, Structural)]
pub enum PetSpecies {
    Dragon,
    Phoenix,
    Wolf,
    Owl,
    Fox,
    Cat,
    Turtle,
    Eagle,
    Unicorn,
    Robot,
}

/// The human-readable name of a species: the name of its variant.
pub open spec fn species_name(s: PetSpecies) -> Seq<char> {
    match s {
        PetSpecies::Dragon => "Dragon"@,
        PetSpecies::Phoenix => "Phoenix"@,
        PetSpecies::Wolf => "Wolf"@,
        PetSpecies::Owl => "Owl"@,
        PetSpecies::Fox => "Fox"@,
        PetSpecies::Cat => "Cat"@,
        PetSpecies::Turtle => "Turtle"@,
        PetSpecies::Eagle => "Eagle"@,
        PetSpecies::Unicorn => "Unicorn"@,
        PetSpecies::Robot => "Robot"@,
    }
}

impl PetSpecies {
    /// Human-readable name of the species.
    pub fn name(&self) -> (r: &'static str)
        ensures
            r@ == species_name(*self),
            *self == PetSpecies::Dragon ==> r@ == "Dragon"@,
            *self == PetSpecies::Phoenix ==> r@ == "Phoenix"@,
            *self == PetSpecies::Wolf ==> r@ == "Wolf"@,
            *self == PetSpecies::Owl ==> r@ == "Owl"@,
            *self == PetSpecies::Fox ==> r@ == "Fox"@,
            *self == PetSpecies::Cat ==> r@ == "Cat"@,
            *self == PetSpecies::Turtle ==> r@ == "Turtle"@,
            *self == PetSpecies::Eagle ==> r@ == "Eagle"@,
            *self == PetSpecies::Unicorn ==> r@ == "Unicorn"@,
            *self == PetSpecies::Robot ==> r@ == "Robot"@,
    {
        match self {
            PetSpecies::Dragon => "Dragon",
            PetSpecies::Phoenix => "Phoenix",
            PetSpecies::Wolf => "Wolf",
            PetSpecies::Owl => "Owl",
            PetSpecies::Fox => "Fox",
            PetSpecies::Cat => "Cat",
            PetSpecies::Turtle => "Turtle",
            PetSpecies::Eagle => "Eagle",
            PetSpecies::Unicorn => "Unicorn",
            PetSpecies::Robot => "Robot",
        }
    }
}

/// Every species is named after its variant.
pub proof fn lemma_species_names()
    ensures
        species_name(PetSpecies::Dragon) == "Dragon"@,
        species_name(PetSpecies::Phoenix) == "Phoenix"@,
        species_name(PetSpecies::Wolf) == "Wolf"@,
        species_name(PetSpecies::Owl) == "Owl"@,
        species_name(PetSpecies::Fox) == "Fox"@,
        species_name(PetSpecies::Cat) == "Cat"@,
        species_name(PetSpecies::Turtle) == "Turtle"@,
        species_name(PetSpecies::Eagle) == "Eagle"@,
        species_name(PetSpecies::Unicorn) == "Unicorn"@,
        species_name(PetSpecies::Robot) == "Robot"@,
{
}

} // verus!
