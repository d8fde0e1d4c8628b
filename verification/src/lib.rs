//! Companion pets: species, moods, appearance descriptions, trick and
//! accessory lists, evolution paths and the per-player roster.

use vstd::prelude::*;

pub mod appearance;
pub mod evolution;
pub mod mood;
pub mod roster;
pub mod species;
pub mod tags;

verus! {

/// The character sequences of a list of strings.
pub open spec fn views_of(v: Seq<String>) -> Seq<Seq<char>> {
    v.map_values(|s: String| s@)
}

} // verus!
