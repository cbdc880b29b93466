# nh_core

The core rules of a NetHack-style roguelike, written in Verus: the
library's functions carry `requires` / `ensures` contracts that the verifier
proves. The one exception is `GameRng::from_entropy`, which seeds the
generator from the system clock, so nothing can be promised of its result.

## Layout

- `src/` — the verified library.
  - `rng.rs` — the game's seeded random number generator (splitmix64),
    modelled as a pure step function on its state, so that every draw is a
    function of the seed. It is a generator of this library's own, not
    NetHack's: a given seed gives other rolls, and so other dungeons, than
    NetHack gives for it.
  - `text.rs`, `num.rs` — string building and saturating arithmetic used
    across the rules.
  - `object.rs`, `monster.rs`, `player.rs` — the plain models of objects,
    monsters and the hero that the rules read and change.
  - `dungeon/` — levels, traps, the dungeon topology with its branches and
    portals, and the population of special rooms.
  - `magic/` — spell components, rituals, identification, enchantment,
    curses, potions, rings, property binding, equipment effects,
    artifacts, detection, genocide, casting stances, metamagic, elemental
    reactions, school specialization and spell mastery.
  - `gameloop.rs` — the two enums that say how a tick of the game loop
    and a game end; the loop itself is not part of this library.
- `tests/` — the test suite, run against the compiled library.
- `app/` — what stands around the library: saving and restoring the
  dungeon as JSON, the game-wide artifact registry, and the multipliers
  that are computed in floating point.

Collections keyed by value come in three forms:

- four are hash maps of `hashbrown` (element positions, species flags,
  item property bindings and school specializations), reached through
  small trusted wrappers whose contracts state what each map operation
  does to the map's contents;
- item identification keeps a `std::collections::HashMap` keyed by the
  object type, proved against vstd's own specification of that map;
- spell components, metamagic techniques and spell mastery are keyed by
  the library's own enums, for which vstd's map specification does not
  hold; each is a `Vec` of entries with the invariant that no key occurs
  twice, viewed as a `Map`.
