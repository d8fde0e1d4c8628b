use vstd::prelude::*;

use crate::views_of;
use crate::tags::no_duplicates;

verus! {

/// The pets of all players, one per player, kept in the order in which
/// the players adopted them.
#[derive(Debug)]
pub struct Roster<V> {
    players: Vec<String>,
    pets: Vec<V>,
}

/// The index at which `name` stands in `names`.
pub open spec fn position_of(names: Seq<Seq<char>>, name: Seq<char>) -> int {
    choose|i: int| 0 <= i < names.len() && names[i] == name
}

/// The pets by player name, where `pets[i]` belongs to `names[i]`.
pub open spec fn pets_by_name<V>(names: Seq<Seq<char>>, pets: Seq<V>) -> Map<Seq<char>, V> {
    Map::new(|k: Seq<char>| names.contains(k), |k: Seq<char>| pets[position_of(names, k)])
}

/// The roster after `player` adopts `pet`: unchanged when the player
/// already has a pet.
pub open spec fn adopted<V>(m: Map<Seq<char>, V>, player: Seq<char>, pet: V) -> Map<Seq<char>, V> {
    if m.contains_key(player) {
        m
    } else {
        m.insert(player, pet)
    }
}

/// Where no name repeats, the pet at index `i` is the pet of `names[i]`.
proof fn lemma_pet_at<V>(names: Seq<Seq<char>>, pets: Seq<V>, i: int)
    requires
        no_duplicates(names),
        0 <= i < names.len(),
    ensures
        position_of(names, names[i]) == i,
        pets_by_name(names, pets).contains_key(names[i]),
        pets_by_name(names, pets)[names[i]] == pets[i],
{
    assert(names.contains(names[i]));
}

/// Appending a new name with its pet adds exactly that player and pet.
proof fn lemma_push_pet<V>(names: Seq<Seq<char>>, pets: Seq<V>, name: Seq<char>, pet: V)
    requires
        no_duplicates(names),
        names.len() == pets.len(),
        !names.contains(name),
    ensures
        no_duplicates(names.push(name)),
        pets_by_name(names.push(name), pets.push(pet)) == pets_by_name(names, pets).insert(name, pet),
{
    let new_names = names.push(name);
    let new_pets = pets.push(pet);
    assert(new_names[names.len() as int] == name);
    let target = pets_by_name(names, pets).insert(name, pet);
    let result = pets_by_name(new_names, new_pets);
    assert forall|k: Seq<char>| #[trigger] result.contains_key(k) == target.contains_key(k) by {
        if new_names.contains(k) {
            let j = choose|j: int| 0 <= j < new_names.len() && new_names[j] == k;
            if j < names.len() {
                assert(names[j] == k);
            }
        }
        if names.contains(k) {
            let j = choose|j: int| 0 <= j < names.len() && names[j] == k;
            assert(new_names[j] == k);
        }
    }
    assert forall|k: Seq<char>| #[trigger] result.contains_key(k) implies result[k] == target[k] by {
        let j = choose|j: int| 0 <= j < new_names.len() && new_names[j] == k;
        lemma_pet_at(new_names, new_pets, j);
        if j < names.len() {
            assert(names[j] == k);
            lemma_pet_at(names, pets, j);
        }
    }
    assert(result =~= target);
}

/// Replacing the pet at index `i` changes that player's pet and nothing else.
proof fn lemma_replace_pet<V>(names: Seq<Seq<char>>, pets: Seq<V>, i: int, pet: V)
    requires
        no_duplicates(names),
        names.len() == pets.len(),
        0 <= i < names.len(),
    ensures
        pets_by_name(names, pets.update(i, pet)) == pets_by_name(names, pets).insert(names[i], pet),
{
    let updated = pets.update(i, pet);
    lemma_pet_at(names, updated, i);
    let target = pets_by_name(names, pets).insert(names[i], pet);
    let result = pets_by_name(names, updated);
    assert forall|k: Seq<char>| #[trigger] result.contains_key(k) implies result[k] == target[k] by {
        let j = choose|j: int| 0 <= j < names.len() && names[j] == k;
        lemma_pet_at(names, updated, j);
        lemma_pet_at(names, pets, j);
    }
    assert(result =~= target);
}

impl<V> Roster<V> {
    #[verifier::type_invariant]
    spec fn well_formed(self) -> bool {
        &&& self.players@.len() == self.pets@.len()
        &&& no_duplicates(views_of(self.players@))
    }

    /// The players that have a pet, in the order in which they adopted it.
    pub closed spec fn order(&self) -> Seq<Seq<char>> {
        views_of(self.players@)
    }
}

impl<V> View for Roster<V> {
    type V = Map<Seq<char>, V>;

    closed spec fn view(&self) -> Map<Seq<char>, V> {
        pets_by_name(views_of(self.players@), self.pets@)
    }
}

impl<V> Roster<V> {
    /// An empty roster.
    pub fn new() -> (r: Self)
        ensures
            r@ == Map::<Seq<char>, V>::empty(),
            r.order() == Seq::<Seq<char>>::empty(),
    {
        let r = Roster { players: Vec::new(), pets: Vec::new() };
        assert(r@ =~= Map::<Seq<char>, V>::empty());
        assert(r.order() =~= Seq::<Seq<char>>::empty());
        r
    }

    /// The index of `player` among the players, if it has a pet.
    fn find(&self, player: &str) -> (r: Option<usize>)
        ensures
            match r {
                Some(i) => i < self.players@.len() && self.players@[i as int]@ == player@,
                None => !views_of(self.players@).contains(player@),
            },
    {
        let wanted = player.to_owned();
        let mut i: usize = 0;
        while i < self.players.len()
            invariant
                i <= self.players@.len(),
                wanted@ == player@,
                forall|k: int| 0 <= k < i ==> self.players@[k]@ != player@,
            decreases self.players@.len() - i,
        {
            if self.players[i] == wanted {
                return Some(i);
            }
            i = i + 1;
        }
        proof {
            let names = views_of(self.players@);
            if names.contains(player@) {
                let k = choose|k: int| 0 <= k < names.len() && names[k] == player@;
                assert(self.players@[k]@ == player@);
            }
        }
        None
    }

    /// Gives `player` the pet `pet`, unless the player already has one.
    /// Returns whether the pet was adopted.
    pub fn adopt(&mut self, player: &str, pet: V) -> (added: bool)
        ensures
            added == !old(self)@.contains_key(player@),
            final(self)@ == adopted(old(self)@, player@, pet),
            final(self).order() == (if added {
                old(self).order().push(player@)
            } else {
                old(self).order()
            }),
    {
        proof {
            use_type_invariant(&*self);
        }
        match self.find(player) {
            Some(i) => {
                proof {
                    lemma_pet_at(views_of(self.players@), self.pets@, i as int);
                }
                false
            },
            None => {
                let mut taken = Roster { players: Vec::new(), pets: Vec::new() };
                std::mem::swap(&mut taken, self);
                let Roster { players: mut players, pets: mut pets } = taken;
                let ghost old_names = views_of(players@);
                let ghost old_pets = pets@;
                let entry = player.to_owned();
                players.push(entry);
                pets.push(pet);
                proof {
                    assert(views_of(players@) =~= old_names.push(player@));
                    lemma_push_pet(old_names, old_pets, player@, pet);
                }
                *self = Roster { players, pets };
                true
            },
        }
    }

    /// The pet of `player`, if the player has one.
    pub fn get(&self, player: &str) -> (r: Option<&V>)
        ensures
            match r {
                Some(v) => self@.contains_key(player@) && *v == self@[player@],
                None => !self@.contains_key(player@),
            },
    {
        proof {
            use_type_invariant(self);
        }
        match self.find(player) {
            Some(i) => {
                proof {
                    lemma_pet_at(views_of(self.players@), self.pets@, i as int);
                }
                Some(&self.pets[i])
            },
            None => None,
        }
    }

    /// The pet of `player`, if the player has one, to be changed in place.
    pub fn get_mut(&mut self, player: &str) -> (r: Option<&mut V>)
        ensures
            old(self)@.contains_key(player@) == r is Some,
            r is Some ==> *r->0 == old(self)@[player@],
            r is Some ==> final(self)@ == old(self)@.insert(player@, *final(r->0)),
            r is None ==> final(self)@ == old(self)@,
            final(self).order() == old(self).order(),
    {
        proof {
            use_type_invariant(&*self);
        }
        match self.find(player) {
            Some(i) => {
                let ghost names = views_of(self.players@);
                let ghost before = self.pets@;
                proof {
                    lemma_pet_at(names, before, i as int);
                }
                let slot = &mut self.pets[i];
                proof {
                    lemma_replace_pet(names, before, i as int, *final(slot));
                }
                Some(slot)
            },
            None => None,
        }
    }

    /// The players that have a pet, in the order in which they adopted it.
    pub fn players(&self) -> (r: Vec<&str>)
        ensures
            r@.map_values(|s: &str| s@) == self.order(),
            no_duplicates(self.order()),
            forall|k: Seq<char>| #[trigger] self.order().contains(k) <==> self@.contains_key(k),
    {
        proof {
            use_type_invariant(self);
        }
        let ghost names = views_of(self.players@);
        let mut out: Vec<&str> = Vec::new();
        let mut i: usize = 0;
        while i < self.players.len()
            invariant
                i <= self.players@.len(),
                names == views_of(self.players@),
                out@.len() == i,
                forall|k: int| 0 <= k < i ==> #[trigger] out@[k]@ == names[k],
            decreases self.players@.len() - i,
        {
            out.push(self.players[i].as_str());
            i = i + 1;
        }
        assert(out@.map_values(|s: &str| s@) =~= names);
        out
    }
}

impl<V: Clone> Clone for Roster<V> {
    /// A copy with the same players, in the same order, each with a clone
    /// of its pet.
    fn clone(&self) -> (r: Self)
        ensures
            r.order() == self.order(),
            r@.dom() == self@.dom(),
            forall|k: Seq<char>| #[trigger] r@.contains_key(k) ==> cloned::<V>(self@[k], r@[k]),
    {
        proof {
            use_type_invariant(self);
        }
        let players = self.players.clone();
        let pets = self.pets.clone();
        proof {
            assert forall|i: int| 0 <= i < players@.len() implies players@[i] == self.players@[i] by {
                assert(cloned::<String>(self.players[i], players[i]));
            }
            assert(players@ =~= self.players@);
        }
        let r = Roster { players, pets };
        assert(r@.dom() =~= self@.dom());
        assert forall|k: Seq<char>| #[trigger] r@.contains_key(k) implies cloned::<V>(self@[k], r@[k]) by {
            let names = views_of(self.players@);
            let i = choose|i: int| 0 <= i < names.len() && names[i] == k;
            lemma_pet_at(names, self.pets@, i);
            lemma_pet_at(names, r.pets@, i);
            assert(cloned::<V>(self.pets[i], r.pets[i]));
        }
        r
    }
}

/// Adopting never replaces a pet: after `player` adopts, it has a pet,
/// which is the one it had before if it had one and the new one otherwise;
/// the other players keep theirs; and adopting again for the same player
/// changes nothing.
pub proof fn lemma_adopt_keeps_first<V>(m: Map<Seq<char>, V>, player: Seq<char>, first: V, second: V)
    ensures
        adopted(m, player, first).contains_key(player),
        adopted(m, player, first)[player] == (if m.contains_key(player) {
            m[player]
        } else {
            first
        }),
        adopted(adopted(m, player, first), player, second) == adopted(m, player, first),
        forall|other: Seq<char>|
            other != player ==> (#[trigger] adopted(m, player, first).contains_key(other)
                == m.contains_key(other) && (m.contains_key(other) ==> adopted(m, player, first)[other]
                == m[other])),
{
}

} // verus!
