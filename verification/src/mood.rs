use vstd::prelude::*;

verus! {

/// The current mood of a pet, derived from its stats.
#[derive(Debug, Clone, Copy, PartialEq, Eq, Structural)]
pub enum PetMood {
    Happy,
    Hungry,
    Sleepy,
    Excited,
    Curious,
    Loyal,
}

/// The phrase that describes what a pet in the given mood is doing.
pub open spec fn mood_phrase(m: PetMood) -> Seq<char> {
    match m {
        PetMood::Happy => "happily wagging its tail"@,
        PetMood::Hungry => "looking around for food"@,
        PetMood::Sleepy => "drowsily blinking its eyes"@,
        PetMood::Excited => "bouncing with energy"@,
        PetMood::Curious => "tilting its head inquisitively"@,
        PetMood::Loyal => "gazing at you devotedly"@,
    }
}

impl PetMood {
    /// What a pet in this mood is seen doing, as used in its appearance.
    pub fn phrase(&self) -> (r: &'static str)
        ensures
            r@ == mood_phrase(*self),
            *self == PetMood::Happy ==> r@ == "happily wagging its tail"@,
            *self == PetMood::Hungry ==> r@ == "looking around for food"@,
            *self == PetMood::Sleepy ==> r@ == "drowsily blinking its eyes"@,
            *self == PetMood::Excited ==> r@ == "bouncing with energy"@,
            *self == PetMood::Curious ==> r@ == "tilting its head inquisitively"@,
            *self == PetMood::Loyal ==> r@ == "gazing at you devotedly"@,
    {
        match self {
            PetMood::Happy => "happily wagging its tail",
            PetMood::Hungry => "looking around for food",
            PetMood::Sleepy => "drowsily blinking its eyes",
            PetMood::Excited => "bouncing with energy",
            PetMood::Curious => "tilting its head inquisitively",
            PetMood::Loyal => "gazing at you devotedly",
        }
    }
}

/// The phrase of each mood.
pub proof fn lemma_mood_phrases()
    ensures
        mood_phrase(PetMood::Happy) == "happily wagging its tail"@,
        mood_phrase(PetMood::Hungry) == "looking around for food"@,
        mood_phrase(PetMood::Sleepy) == "drowsily blinking its eyes"@,
        mood_phrase(PetMood::Excited) == "bouncing with energy"@,
        mood_phrase(PetMood::Curious) == "tilting its head inquisitively"@,
        mood_phrase(PetMood::Loyal) == "gazing at you devotedly"@,
{
}

} // verus!
