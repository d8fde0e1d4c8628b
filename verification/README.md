# pets

Companion pets for players: species, moods, evolutions and a per-player
manager.

- `src/` is the verified library (Verus): species names, mood phrases, the
  prose appearance of a pet, duplicate-free trick and accessory lists, the
  evolution table, and the roster that gives each player at most one pet.
- `app/` holds the parts that work on floating-point stats (feeding,
  playing, training, levelling, moods, the bond requirement of evolutions)
  and the serde support; it calls the library for everything else.
- `tests/` exercises the library.
