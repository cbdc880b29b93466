//! Special room population.
//!
//! Monster and item spawning for special room types, and the placement of
//! fountains, sinks, altars, graves, niches and minerals.

use vstd::prelude::*;
use vstd::string::*;
use crate::rng::{GameRng, rn2_at, rnd_at, step, steps, lemma_steps_succ};
use crate::monster::{Monster, MonsterId, MonsterResistances, MonsterState};
use crate::object::{Object, ObjectClass, ObjectId};
use crate::dungeon::level::{Level, Room, RoomType, CellType, TrapType, Trap, Cell, COLNO, ROWNO,
    cell_index, is_wall_type};

verus! {

/// Monster class for special room spawning.
#[derive(Debug, Clone, Copy, PartialEq, Eq, Structural)]
pub enum SpecialMonsterClass {
    Dragon,
    Giant,
    Troll,
    Centaur,
    Orc,
    Bugbear,
    Hobgoblin,
    Gnome,
    Kobold,
    Demon,
    Vampire,
    GhostClass,
    Wraith,
    Zombie,
    Captain,
    Lieutenant,
    Sergeant,
    Soldier,
    QueenBee,
    KillerBee,
    SoldierAnt,
    FireAnt,
    GiantAnt,
    Leprechaun,
    Cockatrice,
    RandomMonster,
    Priest,
    GiantEel,
    Piranha,
    ElectricEel,
    Fungus,
}

/// Display name of a monster class.
pub open spec fn class_name(c: SpecialMonsterClass) -> Seq<char> {
    match c {
        SpecialMonsterClass::Dragon => "dragon"@,
        SpecialMonsterClass::Giant => "giant"@,
        SpecialMonsterClass::Troll => "troll"@,
        SpecialMonsterClass::Centaur => "centaur"@,
        SpecialMonsterClass::Orc => "orc"@,
        SpecialMonsterClass::Bugbear => "bugbear"@,
        SpecialMonsterClass::Hobgoblin => "hobgoblin"@,
        SpecialMonsterClass::Gnome => "gnome"@,
        SpecialMonsterClass::Kobold => "kobold"@,
        SpecialMonsterClass::Demon => "demon"@,
        SpecialMonsterClass::Vampire => "vampire"@,
        SpecialMonsterClass::GhostClass => "ghost"@,
        SpecialMonsterClass::Wraith => "wraith"@,
        SpecialMonsterClass::Zombie => "zombie"@,
        SpecialMonsterClass::Captain => "captain"@,
        SpecialMonsterClass::Lieutenant => "lieutenant"@,
        SpecialMonsterClass::Sergeant => "sergeant"@,
        SpecialMonsterClass::Soldier => "soldier"@,
        SpecialMonsterClass::QueenBee => "queen bee"@,
        SpecialMonsterClass::KillerBee => "killer bee"@,
        SpecialMonsterClass::SoldierAnt => "soldier ant"@,
        SpecialMonsterClass::FireAnt => "fire ant"@,
        SpecialMonsterClass::GiantAnt => "giant ant"@,
        SpecialMonsterClass::Leprechaun => "leprechaun"@,
        SpecialMonsterClass::Cockatrice => "cockatrice"@,
        SpecialMonsterClass::RandomMonster => "monster"@,
        SpecialMonsterClass::Priest => "priest"@,
        SpecialMonsterClass::GiantEel => "giant eel"@,
        SpecialMonsterClass::Piranha => "piranha"@,
        SpecialMonsterClass::ElectricEel => "electric eel"@,
        SpecialMonsterClass::Fungus => "fungus"@,
    }
}

/// Base hit points and random extra of a monster class: `base + rnd(extra)`.
pub open spec fn class_hp(c: SpecialMonsterClass) -> (int, int) {
    match c {
        SpecialMonsterClass::Dragon => (80, 40),
        SpecialMonsterClass::Giant => (50, 30),
        SpecialMonsterClass::Troll => (40, 20),
        SpecialMonsterClass::Centaur => (30, 15),
        SpecialMonsterClass::Orc | SpecialMonsterClass::Bugbear => (15, 10),
        SpecialMonsterClass::Hobgoblin => (12, 8),
        SpecialMonsterClass::Gnome | SpecialMonsterClass::Kobold => (8, 5),
        SpecialMonsterClass::Demon => (60, 30),
        SpecialMonsterClass::Vampire => (40, 20),
        SpecialMonsterClass::GhostClass | SpecialMonsterClass::Wraith => (20, 10),
        SpecialMonsterClass::Zombie => (15, 8),
        SpecialMonsterClass::Captain => (30, 15),
        SpecialMonsterClass::Lieutenant => (25, 10),
        SpecialMonsterClass::Sergeant => (20, 8),
        SpecialMonsterClass::Soldier => (15, 5),
        SpecialMonsterClass::QueenBee => (25, 10),
        SpecialMonsterClass::KillerBee => (8, 4),
        SpecialMonsterClass::SoldierAnt | SpecialMonsterClass::FireAnt | SpecialMonsterClass::GiantAnt => (12, 6),
        SpecialMonsterClass::Leprechaun => (10, 5),
        SpecialMonsterClass::Cockatrice => (20, 10),
        SpecialMonsterClass::RandomMonster => (10, 10),
        SpecialMonsterClass::Priest => (25, 10),
        SpecialMonsterClass::GiantEel | SpecialMonsterClass::ElectricEel => (15, 8),
        SpecialMonsterClass::Piranha => (10, 5),
        SpecialMonsterClass::Fungus => (8, 4),
    }
}

/// Difficulty level of a monster class.
pub open spec fn class_difficulty(c: SpecialMonsterClass) -> int {
    match c {
        SpecialMonsterClass::Dragon => 15,
        SpecialMonsterClass::Giant => 10,
        SpecialMonsterClass::Troll => 8,
        SpecialMonsterClass::Centaur => 6,
        SpecialMonsterClass::Orc | SpecialMonsterClass::Bugbear => 4,
        SpecialMonsterClass::Hobgoblin => 3,
        SpecialMonsterClass::Gnome | SpecialMonsterClass::Kobold => 2,
        SpecialMonsterClass::Demon => 12,
        SpecialMonsterClass::Vampire => 10,
        SpecialMonsterClass::GhostClass | SpecialMonsterClass::Wraith => 7,
        SpecialMonsterClass::Zombie => 4,
        SpecialMonsterClass::Captain => 8,
        SpecialMonsterClass::Lieutenant => 6,
        SpecialMonsterClass::Sergeant => 4,
        SpecialMonsterClass::Soldier => 3,
        SpecialMonsterClass::QueenBee => 6,
        SpecialMonsterClass::KillerBee => 2,
        SpecialMonsterClass::SoldierAnt | SpecialMonsterClass::FireAnt | SpecialMonsterClass::GiantAnt => 4,
        SpecialMonsterClass::Leprechaun => 3,
        SpecialMonsterClass::Cockatrice => 7,
        SpecialMonsterClass::RandomMonster => 3,
        SpecialMonsterClass::Priest => 5,
        SpecialMonsterClass::GiantEel | SpecialMonsterClass::ElectricEel => 5,
        SpecialMonsterClass::Piranha => 3,
        SpecialMonsterClass::Fungus => 2,
    }
}

impl SpecialMonsterClass {
    /// Get a display name for this monster class.
    pub fn name(&self) -> (s: &'static str)
        ensures
            s@ == class_name(*self),
    {
        match self {
            SpecialMonsterClass::Dragon => "dragon",
            SpecialMonsterClass::Giant => "giant",
            SpecialMonsterClass::Troll => "troll",
            SpecialMonsterClass::Centaur => "centaur",
            SpecialMonsterClass::Orc => "orc",
            SpecialMonsterClass::Bugbear => "bugbear",
            SpecialMonsterClass::Hobgoblin => "hobgoblin",
            SpecialMonsterClass::Gnome => "gnome",
            SpecialMonsterClass::Kobold => "kobold",
            SpecialMonsterClass::Demon => "demon",
            SpecialMonsterClass::Vampire => "vampire",
            SpecialMonsterClass::GhostClass => "ghost",
            SpecialMonsterClass::Wraith => "wraith",
            SpecialMonsterClass::Zombie => "zombie",
            SpecialMonsterClass::Captain => "captain",
            SpecialMonsterClass::Lieutenant => "lieutenant",
            SpecialMonsterClass::Sergeant => "sergeant",
            SpecialMonsterClass::Soldier => "soldier",
            SpecialMonsterClass::QueenBee => "queen bee",
            SpecialMonsterClass::KillerBee => "killer bee",
            SpecialMonsterClass::SoldierAnt => "soldier ant",
            SpecialMonsterClass::FireAnt => "fire ant",
            SpecialMonsterClass::GiantAnt => "giant ant",
            SpecialMonsterClass::Leprechaun => "leprechaun",
            SpecialMonsterClass::Cockatrice => "cockatrice",
            SpecialMonsterClass::RandomMonster => "monster",
            SpecialMonsterClass::Priest => "priest",
            SpecialMonsterClass::GiantEel => "giant eel",
            SpecialMonsterClass::Piranha => "piranha",
            SpecialMonsterClass::ElectricEel => "electric eel",
            SpecialMonsterClass::Fungus => "fungus",
        }
    }

    /// Get base HP for this monster class: its base plus `rnd` of its extra.
    pub fn base_hp(&self, rng: &mut GameRng) -> (hp: i32)
        ensures
            hp == class_hp(*self).0 + rnd_at(old(rng)@, class_hp(*self).1 as u32),
            final(rng)@ == step(old(rng)@),
    {
        let (base, extra): (i32, u32) = match self {
            SpecialMonsterClass::Dragon => (80, 40),
            SpecialMonsterClass::Giant => (50, 30),
            SpecialMonsterClass::Troll => (40, 20),
            SpecialMonsterClass::Centaur => (30, 15),
            SpecialMonsterClass::Orc | SpecialMonsterClass::Bugbear => (15, 10),
            SpecialMonsterClass::Hobgoblin => (12, 8),
            SpecialMonsterClass::Gnome | SpecialMonsterClass::Kobold => (8, 5),
            SpecialMonsterClass::Demon => (60, 30),
            SpecialMonsterClass::Vampire => (40, 20),
            SpecialMonsterClass::GhostClass | SpecialMonsterClass::Wraith => (20, 10),
            SpecialMonsterClass::Zombie => (15, 8),
            SpecialMonsterClass::Captain => (30, 15),
            SpecialMonsterClass::Lieutenant => (25, 10),
            SpecialMonsterClass::Sergeant => (20, 8),
            SpecialMonsterClass::Soldier => (15, 5),
            SpecialMonsterClass::QueenBee => (25, 10),
            SpecialMonsterClass::KillerBee => (8, 4),
            SpecialMonsterClass::SoldierAnt | SpecialMonsterClass::FireAnt
            | SpecialMonsterClass::GiantAnt => (12, 6),
            SpecialMonsterClass::Leprechaun => (10, 5),
            SpecialMonsterClass::Cockatrice => (20, 10),
            SpecialMonsterClass::RandomMonster => (10, 10),
            SpecialMonsterClass::Priest => (25, 10),
            SpecialMonsterClass::GiantEel | SpecialMonsterClass::ElectricEel => (15, 8),
            SpecialMonsterClass::Piranha => (10, 5),
            SpecialMonsterClass::Fungus => (8, 4),
        };
        base + rng.rnd(extra) as i32
    }

    /// Get the difficulty level of this monster class.
    pub fn difficulty(&self) -> (d: i32)
        ensures
            d == class_difficulty(*self),
    {
        match self {
            SpecialMonsterClass::Dragon => 15,
            SpecialMonsterClass::Giant => 10,
            SpecialMonsterClass::Troll => 8,
            SpecialMonsterClass::Centaur => 6,
            SpecialMonsterClass::Orc | SpecialMonsterClass::Bugbear => 4,
            SpecialMonsterClass::Hobgoblin => 3,
            SpecialMonsterClass::Gnome | SpecialMonsterClass::Kobold => 2,
            SpecialMonsterClass::Demon => 12,
            SpecialMonsterClass::Vampire => 10,
            SpecialMonsterClass::GhostClass | SpecialMonsterClass::Wraith => 7,
            SpecialMonsterClass::Zombie => 4,
            SpecialMonsterClass::Captain => 8,
            SpecialMonsterClass::Lieutenant => 6,
            SpecialMonsterClass::Sergeant => 4,
            SpecialMonsterClass::Soldier => 3,
            SpecialMonsterClass::QueenBee => 6,
            SpecialMonsterClass::KillerBee => 2,
            SpecialMonsterClass::SoldierAnt | SpecialMonsterClass::FireAnt
            | SpecialMonsterClass::GiantAnt => 4,
            SpecialMonsterClass::Leprechaun => 3,
            SpecialMonsterClass::Cockatrice => 7,
            SpecialMonsterClass::RandomMonster => 3,
            SpecialMonsterClass::Priest => 5,
            SpecialMonsterClass::GiantEel | SpecialMonsterClass::ElectricEel => 5,
            SpecialMonsterClass::Piranha => 3,
            SpecialMonsterClass::Fungus => 2,
        }
    }
}

/// Throne-room monster for a roll `i`: the higher the roll, the stronger.
pub open spec fn court_class(i: int) -> SpecialMonsterClass {
    if i > 100 { SpecialMonsterClass::Dragon }
    else if i > 95 { SpecialMonsterClass::Giant }
    else if i > 85 { SpecialMonsterClass::Troll }
    else if i > 75 { SpecialMonsterClass::Centaur }
    else if i > 60 { SpecialMonsterClass::Orc }
    else if i > 45 { SpecialMonsterClass::Bugbear }
    else if i > 30 { SpecialMonsterClass::Hobgoblin }
    else if i > 15 { SpecialMonsterClass::Gnome }
    else { SpecialMonsterClass::Kobold }
}

/// `max(3 * difficulty, 1)`, the range of the difficulty part of a throne-room roll.
pub open spec fn court_range(difficulty: int) -> int {
    if 3 * difficulty > 1 { 3 * difficulty } else { 1 }
}

/// Select a monster for a throne room:
/// the roll is `rnd(60) + rnd(max(3*difficulty, 1))`.
pub fn court_monster(rng: &mut GameRng, difficulty: i32) -> (c: SpecialMonsterClass)
    requires
        -1_000_000 <= difficulty <= 1_000_000,
    ensures
        c == court_class(rnd_at(old(rng)@, 60) + rnd_at(step(old(rng)@), court_range(difficulty as int) as u32)),
        final(rng)@ == step(step(old(rng)@)),
{
    let a = rng.rnd(60) as i32;
    let range: i32 = if 3 * difficulty > 1 { 3 * difficulty } else { 1 };
    let b = rng.rnd(range as u32) as i32;
    let i = a + b;
    if i > 100 { SpecialMonsterClass::Dragon }
    else if i > 95 { SpecialMonsterClass::Giant }
    else if i > 85 { SpecialMonsterClass::Troll }
    else if i > 75 { SpecialMonsterClass::Centaur }
    else if i > 60 { SpecialMonsterClass::Orc }
    else if i > 45 { SpecialMonsterClass::Bugbear }
    else if i > 30 { SpecialMonsterClass::Hobgoblin }
    else if i > 15 { SpecialMonsterClass::Gnome }
    else { SpecialMonsterClass::Kobold }
}

/// Morgue monster for a percentage roll `i` and a difficulty roll `hd`.
pub open spec fn morgue_class(i: int, hd: int) -> SpecialMonsterClass {
    if hd > 10 && i < 10 { SpecialMonsterClass::Demon }
    else if hd > 8 && i > 85 { SpecialMonsterClass::Vampire }
    else if i <= 19 { SpecialMonsterClass::GhostClass }
    else if i <= 39 { SpecialMonsterClass::Wraith }
    else { SpecialMonsterClass::Zombie }
}

/// `max(difficulty, 1)`.
pub open spec fn at_least_one(d: int) -> int {
    if d > 1 { d } else { 1 }
}

/// Select a monster for a morgue: undead, with
/// demons and vampires possible at high difficulty.
pub fn morgue_monster(rng: &mut GameRng, difficulty: i32) -> (c: SpecialMonsterClass)
    ensures
        c == morgue_class(rn2_at(old(rng)@, 100) as int,
            rn2_at(step(old(rng)@), at_least_one(difficulty as int) as u32) as int),
        final(rng)@ == step(step(old(rng)@)),
{
    let i = rng.rn2(100);
    let range: i32 = if difficulty > 1 { difficulty } else { 1 };
    let hd = rng.rn2(range as u32) as i32;
    if hd > 10 && i < 10 {
        return SpecialMonsterClass::Demon;
    }
    if hd > 8 && i > 85 {
        return SpecialMonsterClass::Vampire;
    }
    if i <= 19 {
        SpecialMonsterClass::GhostClass
    } else if i <= 39 {
        SpecialMonsterClass::Wraith
    } else {
        SpecialMonsterClass::Zombie
    }
}

/// Barracks monster for a roll `p`.
pub open spec fn squad_class(p: int) -> SpecialMonsterClass {
    if p >= 100 { SpecialMonsterClass::Captain }
    else if p >= 96 { SpecialMonsterClass::Lieutenant }
    else if p >= 81 { SpecialMonsterClass::Sergeant }
    else { SpecialMonsterClass::Soldier }
}

/// Select a monster for barracks: the roll is
/// `rnd(80 + difficulty)`.
pub fn squad_monster(rng: &mut GameRng, difficulty: i32) -> (c: SpecialMonsterClass)
    requires
        80 + (difficulty as u32) <= u32::MAX,
    ensures
        c == squad_class(rnd_at(old(rng)@, (80 + (difficulty as u32)) as u32)),
        final(rng)@ == step(old(rng)@),
{
    let prob = rng.rnd(80 + difficulty as u32);
    if prob >= 100 {
        SpecialMonsterClass::Captain
    } else if prob >= 96 {
        SpecialMonsterClass::Lieutenant
    } else if prob >= 81 {
        SpecialMonsterClass::Sergeant
    } else {
        SpecialMonsterClass::Soldier
    }
}

/// Select a monster for a beehive: the queen in the center, killer bees elsewhere.
pub fn beehive_monster(is_center: bool) -> (c: SpecialMonsterClass)
    ensures
        c == (if is_center { SpecialMonsterClass::QueenBee } else { SpecialMonsterClass::KillerBee }),
{
    if is_center {
        SpecialMonsterClass::QueenBee
    } else {
        SpecialMonsterClass::KillerBee
    }
}

/// Ant kind for an anthole, by `(seed + depth) mod 3`.
pub open spec fn ant_class(k: int) -> SpecialMonsterClass {
    if k == 0 { SpecialMonsterClass::SoldierAnt }
    else if k == 1 { SpecialMonsterClass::FireAnt }
    else { SpecialMonsterClass::GiantAnt }
}

/// Select a monster for an anthole: the same for a
/// given seed and depth.
pub fn anthole_monster(seed: u64, depth: i32) -> (c: SpecialMonsterClass)
    requires
        seed + (depth as u64) <= u64::MAX,
    ensures
        c == ant_class(((seed + (depth as u64)) % 3) as int),
{
    let k = (seed + depth as u64) % 3;
    if k == 0 {
        SpecialMonsterClass::SoldierAnt
    } else if k == 1 {
        SpecialMonsterClass::FireAnt
    } else {
        SpecialMonsterClass::GiantAnt
    }
}

/// Swamp monster for a roll of `0..10`.
pub open spec fn swamp_class(r: int) -> SpecialMonsterClass {
    if r <= 7 { SpecialMonsterClass::GiantEel }
    else if r == 8 { SpecialMonsterClass::Piranha }
    else { SpecialMonsterClass::ElectricEel }
}

/// Select a monster for a swamp: giant eel 80%,
/// piranha 10%, electric eel 10%.
pub fn swamp_monster(rng: &mut GameRng) -> (c: SpecialMonsterClass)
    ensures
        c == swamp_class(rn2_at(old(rng)@, 10) as int),
        final(rng)@ == step(old(rng)@),
{
    let r = rng.rn2(10);
    if r <= 7 {
        SpecialMonsterClass::GiantEel
    } else if r == 8 {
        SpecialMonsterClass::Piranha
    } else {
        SpecialMonsterClass::ElectricEel
    }
}

/// `m` is a freshly made monster of class `c` at `(x, y)`.
pub open spec fn made_monster(m: Monster, c: SpecialMonsterClass, x: int, y: int, sleeping: bool, s: u64) -> bool {
    &&& m.id == MonsterId(0)
    &&& m.monster_type == class_difficulty(c)
    &&& m.x == x && m.y == y
    &&& m.hp == class_hp(c).0 + rnd_at(s, class_hp(c).1 as u32)
    &&& m.hp_max == m.hp
    &&& m.name@ == class_name(c)
    &&& m.state == (MonsterState {
        sleeping,
        peaceful: false,
        can_move: true,
        paralyzed: false,
        hasted: false,
        blinded: false,
        confused: false,
        invisible: false,
    })
    &&& m.sleep_timeout == 0
    &&& m.resistances == MonsterResistances::empty_spec()
    &&& !m.undead && !m.demon
}

/// Create a monster of a special class.
fn create_special_monster(monster_class: SpecialMonsterClass, x: usize, y: usize, sleeping: bool,
    rng: &mut GameRng) -> (m: Monster)
    requires
        x < COLNO,
        y < ROWNO,
    ensures
        made_monster(m, monster_class, x as int, y as int, sleeping, old(rng)@),
        final(rng)@ == step(old(rng)@),
{
    let mut monster = Monster::new(MonsterId(0), monster_class.difficulty() as i16, x as i8, y as i8);
    monster.hp = monster_class.base_hp(rng);
    monster.hp_max = monster.hp;
    monster.name = String::from_str(monster_class.name());
    if sleeping {
        monster.state = MonsterState::default_state();
        monster.state.sleeping = true;
    } else {
        monster.state = MonsterState::active();
    }
    monster
}

/// Whether `(x, y)` lies inside room `r`.
pub open spec fn in_room(r: Room, x: int, y: int) -> bool {
    r.x <= x < r.x + r.width && r.y <= y < r.y + r.height
}

/// `new` is `old` followed by monsters standing inside room `r`.
pub open spec fn monsters_added_in(old: Seq<Monster>, new: Seq<Monster>, r: Room) -> bool {
    &&& old.len() <= new.len()
    &&& new.subrange(0, old.len() as int) == old
    &&& forall|i: int| old.len() <= i < new.len() ==> in_room(r, new[i].x as int, new[i].y as int)
}

proof fn lemma_monsters_push(old: Seq<Monster>, mid: Seq<Monster>, m: Monster, r: Room)
    requires
        monsters_added_in(old, mid, r),
        in_room(r, m.x as int, m.y as int),
    ensures
        monsters_added_in(old, mid.push(m), r),
{
    assert(mid.push(m).subrange(0, old.len() as int) =~= mid.subrange(0, old.len() as int));
}

proof fn lemma_monsters_refl(s: Seq<Monster>, r: Room)
    ensures
        monsters_added_in(s, s, r),
{
    assert(s.subrange(0, s.len() as int) =~= s);
}

/// One-in-`n` spawning density of a room type (0 for rooms without monsters).
pub open spec fn spawn_density(t: RoomType) -> int {
    match t {
        RoomType::Court | RoomType::Barracks => 4,
        RoomType::Zoo | RoomType::Morgue => 3,
        RoomType::Beehive | RoomType::Anthole => 2,
        RoomType::LeprechaunHall => 4,
        RoomType::CockatriceNest => 5,
        _ => 0,
    }
}

/// Only monsters are added to the level; terrain, traps, objects, stairs
/// and flags stay as they were.
pub open spec fn only_monsters_added(old: Level, new: Level, r: Room) -> bool {
    &&& new.wf()
    &&& new.dlevel == old.dlevel
    &&& new.cells@ == old.cells@
    &&& new.explored@ == old.explored@
    &&& new.traps@ == old.traps@
    &&& new.objects@ == old.objects@
    &&& new.stairs@ == old.stairs@
    &&& new.flags == old.flags
    &&& monsters_added_in(old.monsters@, new.monsters@, r)
}

/// What populating a room has planned so far: the monsters made, each with
/// its cell, the state its hit points were drawn from and its class; and the
/// generator state.
pub type SpawnPlan = (Seq<(int, int, u64, SpecialMonsterClass)>, u64);

/// The plan after cell `(x, y)` of room `r`: a cell that is no wall and
/// holds no old monster gets a sleeping monster one time in `chance`, of the
/// class the room's kind draws.
pub open spec fn spawn_cell(p: SpawnPlan, mons: Seq<Monster>, cells: Seq<Cell>, r: Room, chance: int, d: int, x: int,
    y: int) -> SpawnPlan {
    if is_wall_type(cells[cell_index(x, y)].typ) || occupied(mons, x, y) {
        p
    } else if rn2_at(p.1, chance as u32) == 0 {
        let center = x == r.x + r.width / 2 && y == r.y + r.height / 2;
        let c = room_monster(r.room_type, step(p.1), d, center);
        (p.0.push((x, y, c.1, c.0)), step(c.1))
    } else {
        (p.0, step(p.1))
    }
}

/// The plan after the first `n` cells of column `x` of room `r`.
pub open spec fn spawn_column(p: SpawnPlan, mons: Seq<Monster>, cells: Seq<Cell>, r: Room, chance: int, d: int, x: int,
    n: nat) -> SpawnPlan
    decreases n,
{
    if n == 0 {
        p
    } else {
        spawn_cell(spawn_column(p, mons, cells, r, chance, d, x, (n - 1) as nat), mons, cells, r, chance, d, x, r.y + n
            - 1)
    }
}

/// The plan after the first `m` columns of room `r`.
pub open spec fn spawn_columns(p: SpawnPlan, mons: Seq<Monster>, cells: Seq<Cell>, r: Room, chance: int, d: int,
    m: nat) -> SpawnPlan
    decreases m,
{
    if m == 0 {
        p
    } else {
        spawn_column(spawn_columns(p, mons, cells, r, chance, d, (m - 1) as nat), mons, cells, r, chance, d, r.x + m
            - 1, r.height as nat)
    }
}

/// `mons` is `old` followed by the monsters of `plan`, each sleeping, of its
/// planned class, made at its cell.
pub open spec fn spawned_monsters(old: Seq<Monster>, mons: Seq<Monster>, plan: Seq<(int, int, u64, SpecialMonsterClass)>) -> bool {
    &&& mons.len() == old.len() + plan.len()
    &&& mons.subrange(0, old.len() as int) == old
    &&& forall|j: int| 0 <= j < plan.len() ==> made_monster(#[trigger] mons[old.len() + j], plan[j].3, plan[j].0,
        plan[j].1, true, plan[j].2)
}

/// The monsters of room `r` were spawned from state `s`, cell by cell,
/// column by column, one time in `chance` on each free non-wall cell.
pub open spec fn monsters_spawned(old: Level, new: Level, r: Room, chance: int, s: u64, s2: u64) -> bool {
    let plan = spawn_columns((Seq::empty(), s), old.monsters@, old.cells@, r, chance, old.dlevel.level_num as int,
        r.width as nat);
    &&& spawned_monsters(old.monsters@, new.monsters@, plan.0)
    &&& s2 == plan.1
}

/// Every monster a plan holds stands in a column before `x`, or in column
/// `x` above row `y`.
pub open spec fn spawned_before(plan: Seq<(int, int, u64, SpecialMonsterClass)>, x: int, y: int) -> bool {
    forall|j: int| 0 <= j < plan.len() ==> (#[trigger] plan[j]).0 < x || (plan[j].0 == x && plan[j].1 < y)
}

fn spawn_monsters(level: &mut Level, room: &Room, spawn_chance: u32, rng: &mut GameRng)
    requires
        old(level).wf(),
        room.fits(),
        spawn_chance > 0,
        old(level).dlevel.level_num >= 0,
    ensures
        only_monsters_added(*old(level), *final(level), *room),
        monsters_spawned(*old(level), *final(level), *room, spawn_chance as int, old(rng)@, final(rng)@),
{
    let difficulty = level.dlevel.depth();
    let (cx, cy) = room.center();
    let ghost mons0 = old(level).monsters@;
    let ghost cells = old(level).cells@;
    let ghost p0: SpawnPlan = (Seq::empty(), old(rng)@);
    let ghost d = difficulty as int;
    let ghost chance = spawn_chance as int;
    proof {
        lemma_monsters_refl(level.monsters@, *room);
        assert(level.monsters@.subrange(0, mons0.len() as int) =~= mons0);
    }
    let mut x = room.x;
    while x < room.x + room.width
        invariant
            room.fits(),
            spawn_chance > 0,
            room.x <= x <= room.x + room.width,
            0 <= difficulty <= 127,
            d == difficulty,
            d == old(level).dlevel.level_num,
            chance == spawn_chance,
            cx == room.x + room.width / 2,
            cy == room.y + room.height / 2,
            mons0 == old(level).monsters@,
            cells == old(level).cells@,
            p0 == (Seq::<(int, int, u64, SpecialMonsterClass)>::empty(), old(rng)@),
            only_monsters_added(*old(level), *level, *room),
            ({
                let p = spawn_columns(p0, mons0, cells, *room, chance, d, (x - room.x) as nat);
                &&& spawned_monsters(mons0, level.monsters@, p.0)
                &&& rng@ == p.1
                &&& spawned_before(p.0, x as int, 0)
            }),
        decreases room.x + room.width - x,
    {
        let ghost c0 = spawn_columns(p0, mons0, cells, *room, chance, d, (x - room.x) as nat);
        let mut y = room.y;
        while y < room.y + room.height
            invariant
                room.fits(),
                spawn_chance > 0,
                room.x <= x < room.x + room.width,
                room.y <= y <= room.y + room.height,
                0 <= difficulty <= 127,
                d == difficulty,
                chance == spawn_chance,
                cx == room.x + room.width / 2,
                cy == room.y + room.height / 2,
                mons0 == old(level).monsters@,
                cells == old(level).cells@,
                only_monsters_added(*old(level), *level, *room),
                ({
                    let p = spawn_column(c0, mons0, cells, *room, chance, d, x as int, (y - room.y) as nat);
                    &&& spawned_monsters(mons0, level.monsters@, p.0)
                    &&& rng@ == p.1
                    &&& spawned_before(p.0, x as int, y as int)
                }),
            decreases room.y + room.height - y,
        {
            let ghost p = spawn_column(c0, mons0, cells, *room, chance, d, x as int, (y - room.y) as nat);
            let ghost mons_before = level.monsters@;
            let t = level.cell_type(x, y);
            let found = level.monster_at(x as i8, y as i8);
            proof {
                if occupied(mons0, x as int, y as int) {
                    let i = choose|i: int| 0 <= i < mons0.len() && mons0[i].x == x && mons0[i].y == y;
                    assert(level.monsters@[i] == level.monsters@.subrange(0, mons0.len() as int)[i]);
                }
                if found is Some {
                    let i = found->0 as int;
                    if i >= mons0.len() {
                        let j = i - mons0.len();
                        assert(made_monster(level.monsters@[mons0.len() + j], p.0[j].3, p.0[j].0, p.0[j].1, true,
                            p.0[j].2));
                        assert(p.0[j].0 < x || (p.0[j].0 == x && p.0[j].1 < y));
                    } else {
                        assert(level.monsters@[i] == level.monsters@.subrange(0, mons0.len() as int)[i]);
                    }
                }
            }
            if !t.is_wall() && found.is_none() && rng.rn2(spawn_chance) == 0 {
                let is_center = x == cx && y == cy;
                let class = select_room_monster(room.room_type, rng, difficulty, is_center);
                let m = create_special_monster(class, x, y, true, rng);
                let ghost mid = level.monsters@;
                level.add_monster(m);
                proof {
                    lemma_monsters_push(old(level).monsters@, mid, m, *room);
                }
            }
            proof {
                let q = spawn_column(c0, mons0, cells, *room, chance, d, x as int, (y - room.y + 1) as nat);
                assert(q == spawn_cell(p, mons0, cells, *room, chance, d, x as int, y as int));
                assert(level.monsters@.subrange(0, mons0.len() as int) =~= mons0);
                assert forall|j: int| 0 <= j < q.0.len() implies made_monster(
                    #[trigger] level.monsters@[mons0.len() + j],
                    q.0[j].3,
                    q.0[j].0,
                    q.0[j].1,
                    true,
                    q.0[j].2,
                ) by {
                    if j < p.0.len() {
                        assert(q.0[j] == p.0[j]);
                        assert(level.monsters@[mons0.len() + j] == mons_before[mons0.len() + j]);
                    }
                }
                assert forall|j: int| 0 <= j < q.0.len() implies (#[trigger] q.0[j]).0 < x || (q.0[j].0 == x
                    && q.0[j].1 < y + 1) by {
                    if j < p.0.len() {
                        assert(q.0[j] == p.0[j]);
                    }
                }
            }
            y = y + 1;
        }
        proof {
            let q = spawn_columns(p0, mons0, cells, *room, chance, d, (x + 1 - room.x) as nat);
            assert(q == spawn_column(c0, mons0, cells, *room, chance, d, x as int, room.height as nat));
        }
        x = x + 1;
    }
}

/// Populate a special room with its monsters and features.
///
/// Each free non-wall cell of a court, barracks, zoo, morgue, beehive,
/// anthole, leprechaun hall or cockatrice nest gets a sleeping monster with
/// the room's density; a court gets a throne in its center; temples and
/// swamps are populated by their own rules; other rooms are left alone.
pub fn populate_special_room(level: &mut Level, room: &Room, rng: &mut GameRng)
    requires
        old(level).wf(),
        room.fits(),
        old(level).dlevel.level_num >= 0,
    ensures
        final(level).wf(),
        final(level).dlevel == old(level).dlevel,
        spawn_density(room.room_type) > 0 && room.room_type != RoomType::Court ==>
            only_monsters_added(*old(level), *final(level), *room),
        spawn_density(room.room_type) > 0 ==> monsters_spawned(*old(level), *final(level), *room,
            spawn_density(room.room_type), old(rng)@, final(rng)@),
        room.room_type == RoomType::Court ==> court_populated(*old(level), *final(level), *room),
        room.room_type == RoomType::Temple ==> temple_populated(*old(level), *final(level), *room, old(rng)@,
            final(rng)@),
        room.room_type == RoomType::Swamp ==> swamp_populated(*old(level), *final(level), *room, old(rng)@,
            final(rng)@),
        spawn_density(room.room_type) == 0 && room.room_type != RoomType::Temple
            && room.room_type != RoomType::Swamp ==> *final(level) == *old(level) && final(rng)@ == old(rng)@,
{
    let spawn_chance: u32 = match room.room_type {
        RoomType::Court | RoomType::Barracks => 4,
        RoomType::Zoo | RoomType::Morgue => 3,
        RoomType::Beehive | RoomType::Anthole => 2,
        RoomType::LeprechaunHall => 4,
        RoomType::CockatriceNest => 5,
        _ => 0,
    };
    if spawn_chance == 0 {
        match room.room_type {
            RoomType::Temple => populate_temple(level, room, rng),
            RoomType::Swamp => populate_swamp(level, room, rng),
            _ => {},
        }
        return;
    }
    spawn_monsters(level, room, spawn_chance, rng);
    let (cx, cy) = room.center();
    place_room_features(level, room, cx, cy, rng);
}

/// A throne room was populated: sleeping monsters inside the room, and a
/// throne in its center.
pub open spec fn court_populated(old: Level, new: Level, r: Room) -> bool {
    let cx = r.x + r.width / 2;
    let cy = r.y + r.height / 2;
    &&& new.wf()
    &&& new.dlevel == old.dlevel
    &&& new.cells@ == old.cells@.update(cell_index(cx, cy), Cell { typ: CellType::Throne, ..old.cell(cx, cy) })
    &&& new.explored@ == old.explored@
    &&& new.traps@ == old.traps@
    &&& new.objects@ == old.objects@
    &&& new.stairs@ == old.stairs@
    &&& new.flags == old.flags
    &&& monsters_added_in(old.monsters@, new.monsters@, r)
}

/// The monster class a room of kind `t` gets from state `s`, with the state
/// after the draws it takes.
pub open spec fn room_monster(t: RoomType, s: u64, difficulty: int, center: bool) -> (SpecialMonsterClass, u64) {
    match t {
        RoomType::Court => (
            court_class(rnd_at(s, 60) + rnd_at(step(s), court_range(difficulty) as u32)),
            step(step(s)),
        ),
        RoomType::Morgue => (
            morgue_class(rn2_at(s, 100) as int, rn2_at(step(s), at_least_one(difficulty) as u32) as int),
            step(step(s)),
        ),
        RoomType::Barracks => (squad_class(rnd_at(s, (80 + difficulty) as u32)), step(s)),
        RoomType::Beehive => (
            if center { SpecialMonsterClass::QueenBee } else { SpecialMonsterClass::KillerBee },
            s,
        ),
        RoomType::Anthole => (ant_class((rn2_at(s, 1000) + difficulty) % 3), step(s)),
        RoomType::LeprechaunHall => (SpecialMonsterClass::Leprechaun, s),
        RoomType::CockatriceNest => (SpecialMonsterClass::Cockatrice, s),
        _ => (SpecialMonsterClass::RandomMonster, s),
    }
}

/// Select the monster for a room type.
fn select_room_monster(room_type: RoomType, rng: &mut GameRng, difficulty: i32, is_center: bool)
    -> (c: SpecialMonsterClass)
    requires
        0 <= difficulty <= 127,
    ensures
        (c, final(rng)@) == room_monster(room_type, old(rng)@, difficulty as int, is_center),
{
    match room_type {
        RoomType::Court => court_monster(rng, difficulty),
        RoomType::Morgue => morgue_monster(rng, difficulty),
        RoomType::Barracks => squad_monster(rng, difficulty),
        RoomType::Beehive => beehive_monster(is_center),
        RoomType::Anthole => {
            let seed = rng.rn2(1000) as u64;
            anthole_monster(seed, difficulty)
        },
        RoomType::Zoo => SpecialMonsterClass::RandomMonster,
        RoomType::LeprechaunHall => SpecialMonsterClass::Leprechaun,
        RoomType::CockatriceNest => SpecialMonsterClass::Cockatrice,
        _ => SpecialMonsterClass::RandomMonster,
    }
}

/// Place room-specific features: a throne in the center of a court.
fn place_room_features(level: &mut Level, room: &Room, cx: usize, cy: usize, _rng: &mut GameRng)
    requires
        old(level).wf(),
        cx < COLNO,
        cy < ROWNO,
    ensures
        final(level).wf(),
        final(level).dlevel == old(level).dlevel,
        final(level).explored@ == old(level).explored@,
        final(level).traps@ == old(level).traps@,
        final(level).monsters@ == old(level).monsters@,
        final(level).objects@ == old(level).objects@,
        final(level).stairs@ == old(level).stairs@,
        final(level).flags == old(level).flags,
        room.room_type == RoomType::Court ==> final(level).cells@ == old(level).cells@.update(
            cell_index(cx as int, cy as int), Cell { typ: CellType::Throne, ..old(level).cell(cx as int, cy as int) }),
        room.room_type != RoomType::Court ==> *final(level) == *old(level),
        final(_rng)@ == old(_rng)@,
{
    match room.room_type {
        RoomType::Court => {
            level.set_cell_type(cx, cy, CellType::Throne);
        },
        _ => {},
    }
}

/// The cells adjacent to `(cx, cy)` where a priest or shopkeeper may stand, in order.
pub open spec fn neighbour(cx: int, cy: int, k: int) -> (int, int) {
    if k == 0 { (if cx >= 1 { cx - 1 } else { 0 }, cy) }
    else if k == 1 { (cx + 1, cy) }
    else if k == 2 { (cx, if cy >= 1 { cy - 1 } else { 0 }) }
    else { (cx, cy + 1) }
}

/// Whether neighbour `k` of `(cx, cy)` lies in room `r` and holds no monster.
pub open spec fn free_neighbour(mons: Seq<Monster>, r: Room, cx: int, cy: int, k: int) -> bool {
    let p = neighbour(cx, cy, k);
    in_room(r, p.0, p.1) && !occupied(mons, p.0, p.1)
}

/// The first of neighbours `k..4` of `(cx, cy)` that is free, or 4 when none is.
pub open spec fn first_free_neighbour(mons: Seq<Monster>, r: Room, cx: int, cy: int, k: int) -> int
    decreases 4 - k,
{
    if k >= 4 {
        4
    } else if free_neighbour(mons, r, cx, cy, k) {
        k
    } else {
        first_free_neighbour(mons, r, cx, cy, k + 1)
    }
}

/// `m` is a peaceful, awake attendant made at `(x, y)` with hit points drawn
/// from state `s`: a shopkeeper or a priest.
pub open spec fn made_attendant(m: Monster, x: int, y: int, s: u64, shopkeeper: bool) -> bool {
    let c = SpecialMonsterClass::Priest;
    &&& m.id == MonsterId(0)
    &&& m.monster_type == class_difficulty(c)
    &&& m.x == x && m.y == y
    &&& m.hp == class_hp(c).0 + rnd_at(s, class_hp(c).1 as u32)
    &&& m.hp_max == m.hp
    &&& m.name@ == (if shopkeeper { "shopkeeper"@ } else { class_name(c) })
    &&& m.state == (MonsterState {
        sleeping: false,
        peaceful: true,
        can_move: true,
        paralyzed: false,
        hasted: false,
        blinded: false,
        confused: false,
        invisible: false,
    })
    &&& m.sleep_timeout == 0
    &&& m.resistances == MonsterResistances::empty_spec()
    &&& !m.undead && !m.demon
}

/// An attendant was placed from state `s`: on the first neighbour of
/// `(cx, cy)` inside the room and free, if there is one; otherwise nothing
/// changed.
pub open spec fn attendant_placed(old: Seq<Monster>, new: Seq<Monster>, r: Room, cx: int, cy: int, shopkeeper: bool,
    s: u64, s2: u64) -> bool {
    let k = first_free_neighbour(old, r, cx, cy, 0);
    if k < 4 {
        let p = neighbour(cx, cy, k);
        &&& new.len() == old.len() + 1
        &&& new.drop_last() == old
        &&& made_attendant(new.last(), p.0, p.1, s, shopkeeper)
        &&& s2 == step(s)
    } else {
        new == old && s2 == s
    }
}

/// The generator state after placing an attendant from state `s`: one draw
/// when a free neighbour was found.
pub open spec fn attendant_state(old: Seq<Monster>, r: Room, cx: int, cy: int, s: u64) -> u64 {
    if first_free_neighbour(old, r, cx, cy, 0) < 4 { step(s) } else { s }
}

/// Place one peaceful attendant next to `(cx, cy)` (priest by the altar,
/// shopkeeper by the door): the first neighbour inside the room and free.
fn place_attendant(level: &mut Level, room: &Room, cx: usize, cy: usize, shopkeeper: bool, rng: &mut GameRng)
    requires
        old(level).wf(),
        room.fits(),
        cx < COLNO - 1,
        cy < ROWNO - 1,
    ensures
        final(level).wf(),
        final(level).dlevel == old(level).dlevel,
        final(level).cells@ == old(level).cells@,
        final(level).explored@ == old(level).explored@,
        final(level).traps@ == old(level).traps@,
        final(level).objects@ == old(level).objects@,
        final(level).stairs@ == old(level).stairs@,
        final(level).flags == old(level).flags,
        attendant_placed(old(level).monsters@, final(level).monsters@, *room, cx as int, cy as int, shopkeeper,
            old(rng)@, final(rng)@),
{
    let mut k: usize = 0;
    while k < 4
        invariant
            0 <= k <= 4,
            room.fits(),
            cx < COLNO - 1,
            cy < ROWNO - 1,
            old(level).wf(),
            *level == *old(level),
            *rng == *old(rng),
            first_free_neighbour(old(level).monsters@, *room, cx as int, cy as int, 0) == first_free_neighbour(
                old(level).monsters@,
                *room,
                cx as int,
                cy as int,
                k as int,
            ),
        decreases 4 - k,
    {
        let (px, py): (usize, usize) = if k == 0 {
            (if cx >= 1 { cx - 1 } else { 0 }, cy)
        } else if k == 1 {
            (cx + 1, cy)
        } else if k == 2 {
            (cx, if cy >= 1 { cy - 1 } else { 0 })
        } else {
            (cx, cy + 1)
        };
        if px >= room.x && px < room.x + room.width && py >= room.y && py < room.y + room.height
            && level.monster_at(px as i8, py as i8).is_none() {
            let mut m = create_special_monster(SpecialMonsterClass::Priest, px, py, false, rng);
            if shopkeeper {
                m.name = String::from_str("shopkeeper");
            }
            m.state.peaceful = true;
            level.add_monster(m);
            proof {
                assert(level.monsters@.drop_last() =~= old(level).monsters@);
                assert(neighbour(cx as int, cy as int, k as int) == (px as int, py as int));
                assert(free_neighbour(old(level).monsters@, *room, cx as int, cy as int, k as int));
            }
            return;
        }
        proof {
            assert(neighbour(cx as int, cy as int, k as int) == (px as int, py as int));
            assert(!free_neighbour(old(level).monsters@, *room, cx as int, cy as int, k as int));
        }
        k = k + 1;
    }
}

/// A temple was populated: an altar in the center of the room, and a
/// peaceful priest next to it when a neighbouring cell is free.
pub open spec fn temple_populated(old: Level, new: Level, r: Room, s: u64, s2: u64) -> bool {
    let cx = r.x + r.width / 2;
    let cy = r.y + r.height / 2;
    &&& new.wf()
    &&& new.dlevel == old.dlevel
    &&& new.cells@ == old.cells@.update(cell_index(cx, cy), Cell { typ: CellType::Altar, ..old.cell(cx, cy) })
    &&& new.explored@ == old.explored@
    &&& new.traps@ == old.traps@
    &&& new.objects@ == old.objects@
    &&& new.stairs@ == old.stairs@
    &&& new.flags == old.flags
    &&& attendant_placed(old.monsters@, new.monsters@, r, cx, cy, false, s, s2)
}

/// Populate a temple with an altar and a priest.
fn populate_temple(level: &mut Level, room: &Room, rng: &mut GameRng)
    requires
        old(level).wf(),
        room.fits(),
    ensures
        temple_populated(*old(level), *final(level), *room, old(rng)@, final(rng)@),
{
    let (cx, cy) = room.center();
    level.set_cell_type(cx, cy, CellType::Altar);
    priestini(level, room, cx, cy, rng);
}

/// Place the temple priest on the first free cell next to the altar.
fn priestini(level: &mut Level, room: &Room, altar_x: usize, altar_y: usize, rng: &mut GameRng)
    requires
        old(level).wf(),
        room.fits(),
        altar_x < COLNO - 1,
        altar_y < ROWNO - 1,
    ensures
        final(level).wf(),
        final(level).dlevel == old(level).dlevel,
        final(level).cells@ == old(level).cells@,
        final(level).explored@ == old(level).explored@,
        final(level).traps@ == old(level).traps@,
        final(level).objects@ == old(level).objects@,
        final(level).stairs@ == old(level).stairs@,
        final(level).flags == old(level).flags,
        attendant_placed(old(level).monsters@, final(level).monsters@, *room, altar_x as int, altar_y as int, false,
            old(rng)@, final(rng)@),
{
    place_attendant(level, room, altar_x, altar_y, false, rng);
}

/// Whether `(x, y)` of a swamp room becomes a pool: non-wall cells with
/// an even coordinate sum.
pub open spec fn swamp_pool(old: Level, r: Room, x: int, y: int) -> bool {
    in_room(r, x, y) && !is_wall_type(old.cell(x, y).typ) && (x + y) % 2 == 0
}

/// The plan after cell `(x, y)` of a swamp: a pool cell gets an aquatic
/// monster one time in two, another non-wall cell a fungus one time in
/// four, when no old monster stands there.
pub open spec fn swamp_cell(p: SpawnPlan, mons: Seq<Monster>, cells: Seq<Cell>, x: int, y: int) -> SpawnPlan {
    if is_wall_type(cells[cell_index(x, y)].typ) {
        p
    } else if (x + y) % 2 == 0 {
        if rn2_at(p.1, 2) == 0 && !occupied(mons, x, y) {
            let s1 = step(p.1);
            let s2 = step(s1);
            (p.0.push((x, y, s2, swamp_class(rn2_at(s1, 10) as int))), step(s2))
        } else {
            (p.0, step(p.1))
        }
    } else {
        if rn2_at(p.1, 4) == 0 && !occupied(mons, x, y) {
            let s1 = step(p.1);
            (p.0.push((x, y, s1, SpecialMonsterClass::Fungus)), step(s1))
        } else {
            (p.0, step(p.1))
        }
    }
}

/// The plan after the first `n` cells of column `x` of a swamp.
pub open spec fn swamp_column(p: SpawnPlan, mons: Seq<Monster>, cells: Seq<Cell>, r: Room, x: int, n: nat) -> SpawnPlan
    decreases n,
{
    if n == 0 {
        p
    } else {
        swamp_cell(swamp_column(p, mons, cells, r, x, (n - 1) as nat), mons, cells, x, r.y + n - 1)
    }
}

/// The plan after the first `m` columns of a swamp.
pub open spec fn swamp_columns(p: SpawnPlan, mons: Seq<Monster>, cells: Seq<Cell>, r: Room, m: nat) -> SpawnPlan
    decreases m,
{
    if m == 0 {
        p
    } else {
        swamp_column(swamp_columns(p, mons, cells, r, (m - 1) as nat), mons, cells, r, r.x + m - 1, r.height as nat)
    }
}

/// A swamp was populated from state `s`: a checkerboard of pools, and the
/// monsters `swamp_cell` plans, cell by cell, column by column.
pub open spec fn swamp_populated(old: Level, new: Level, r: Room, s: u64, s2: u64) -> bool {
    let plan = swamp_columns((Seq::empty(), s), old.monsters@, old.cells@, r, r.width as nat);
    &&& new.wf()
    &&& new.dlevel == old.dlevel
    &&& forall|x: int, y: int| 0 <= x < COLNO && 0 <= y < ROWNO ==> #[trigger] new.cell(x, y) == if swamp_pool(old, r, x, y) {
        Cell { typ: CellType::Pool, ..old.cell(x, y) }
    } else {
        old.cell(x, y)
    }
    &&& new.explored@ == old.explored@
    &&& new.traps@ == old.traps@
    &&& new.objects@ == old.objects@
    &&& new.stairs@ == old.stairs@
    &&& new.flags == old.flags
    &&& spawned_monsters(old.monsters@, new.monsters@, plan.0)
    &&& s2 == plan.1
}

proof fn lemma_index_unique(x1: int, y1: int, x2: int, y2: int)
    requires
        0 <= y1 < ROWNO,
        0 <= y2 < ROWNO,
        cell_index(x1, y1) == cell_index(x2, y2),
    ensures
        x1 == x2 && y1 == y2,
{
}

/// Populate a swamp with pools and aquatic monsters.
fn populate_swamp(level: &mut Level, room: &Room, rng: &mut GameRng)
    requires
        old(level).wf(),
        room.fits(),
    ensures
        swamp_populated(*old(level), *final(level), *room, old(rng)@, final(rng)@),
{
    let ghost mons0 = old(level).monsters@;
    let ghost cells = old(level).cells@;
    let ghost p0: SpawnPlan = (Seq::empty(), old(rng)@);
    proof {
        assert(level.monsters@.subrange(0, mons0.len() as int) =~= mons0);
    }
    let mut x = room.x;
    while x < room.x + room.width
        invariant
            room.fits(),
            room.x <= x <= room.x + room.width,
            mons0 == old(level).monsters@,
            cells == old(level).cells@,
            p0 == (Seq::<(int, int, u64, SpecialMonsterClass)>::empty(), old(rng)@),
            level.wf(),
            level.dlevel == old(level).dlevel,
            level.explored@ == old(level).explored@,
            level.traps@ == old(level).traps@,
            level.objects@ == old(level).objects@,
            level.stairs@ == old(level).stairs@,
            level.flags == old(level).flags,
            forall|a: int, b: int| 0 <= a < COLNO && 0 <= b < ROWNO ==> #[trigger] level.cell(a, b) == if (
                a < x && swamp_pool(*old(level), *room, a, b)) {
                Cell { typ: CellType::Pool, ..old(level).cell(a, b) }
            } else {
                old(level).cell(a, b)
            },
            ({
                let p = swamp_columns(p0, mons0, cells, *room, (x - room.x) as nat);
                &&& spawned_monsters(mons0, level.monsters@, p.0)
                &&& rng@ == p.1
                &&& spawned_before(p.0, x as int, 0)
            }),
        decreases room.x + room.width - x,
    {
        let ghost c0 = swamp_columns(p0, mons0, cells, *room, (x - room.x) as nat);
        let mut y = room.y;
        while y < room.y + room.height
            invariant
                room.fits(),
                room.x <= x < room.x + room.width,
                room.y <= y <= room.y + room.height,
                mons0 == old(level).monsters@,
                cells == old(level).cells@,
                level.wf(),
                level.dlevel == old(level).dlevel,
                level.explored@ == old(level).explored@,
                level.traps@ == old(level).traps@,
                level.objects@ == old(level).objects@,
                level.stairs@ == old(level).stairs@,
                level.flags == old(level).flags,
                forall|a: int, b: int| 0 <= a < COLNO && 0 <= b < ROWNO ==> #[trigger] level.cell(a, b) == if (
                    (a < x || (a == x && b < y)) && swamp_pool(*old(level), *room, a, b)) {
                    Cell { typ: CellType::Pool, ..old(level).cell(a, b) }
                } else {
                    old(level).cell(a, b)
                },
                ({
                    let p = swamp_column(c0, mons0, cells, *room, x as int, (y - room.y) as nat);
                    &&& spawned_monsters(mons0, level.monsters@, p.0)
                    &&& rng@ == p.1
                    &&& spawned_before(p.0, x as int, y as int)
                }),
            decreases room.y + room.height - y,
        {
            let ghost p = swamp_column(c0, mons0, cells, *room, x as int, (y - room.y) as nat);
            let ghost mons_before = level.monsters@;
            proof {
                assert(level.cell(x as int, y as int) == old(level).cell(x as int, y as int));
            }
            let t = level.cell_type(x, y);
            if !t.is_wall() {
                let pool = (x + y) % 2 == 0;
                if pool {
                    let ghost before = *level;
                    level.set_cell_type(x, y, CellType::Pool);
                    proof {
                        assert forall|a: int, b: int| 0 <= a < COLNO && 0 <= b < ROWNO implies #[trigger] level.cell(a, b) == if (
                            (a < x || (a == x && b < y + 1)) && swamp_pool(*old(level), *room, a, b)) {
                            Cell { typ: CellType::Pool, ..old(level).cell(a, b) }
                        } else {
                            old(level).cell(a, b)
                        } by {
                            if cell_index(a, b) == cell_index(x as int, y as int) {
                                lemma_index_unique(a, b, x as int, y as int);
                            } else {
                                assert(level.cell(a, b) == before.cell(a, b));
                            }
                        }
                    }
                }
                let roll = if pool { rng.one_in(2) } else { rng.one_in(4) };
                let found = level.monster_at(x as i8, y as i8);
                proof {
                    if occupied(mons0, x as int, y as int) {
                        let i = choose|i: int| 0 <= i < mons0.len() && mons0[i].x == x && mons0[i].y == y;
                        assert(level.monsters@[i] == level.monsters@.subrange(0, mons0.len() as int)[i]);
                    }
                    if found is Some {
                        let i = found->0 as int;
                        if i >= mons0.len() {
                            let j = i - mons0.len();
                            assert(made_monster(level.monsters@[mons0.len() + j], p.0[j].3, p.0[j].0, p.0[j].1, true,
                                p.0[j].2));
                            assert(p.0[j].0 < x || (p.0[j].0 == x && p.0[j].1 < y));
                        } else {
                            assert(level.monsters@[i] == level.monsters@.subrange(0, mons0.len() as int)[i]);
                        }
                    }
                }
                if roll && found.is_none() {
                    let c = if pool { swamp_monster(rng) } else { SpecialMonsterClass::Fungus };
                    let m = create_special_monster(c, x, y, true, rng);
                    level.add_monster(m);
                }
            }
            proof {
                let q = swamp_column(c0, mons0, cells, *room, x as int, (y - room.y + 1) as nat);
                assert(q == swamp_cell(p, mons0, cells, x as int, y as int));
                assert(level.monsters@.subrange(0, mons0.len() as int) =~= mons0);
                assert forall|j: int| 0 <= j < q.0.len() implies made_monster(
                    #[trigger] level.monsters@[mons0.len() + j],
                    q.0[j].3,
                    q.0[j].0,
                    q.0[j].1,
                    true,
                    q.0[j].2,
                ) by {
                    if j < p.0.len() {
                        assert(q.0[j] == p.0[j]);
                        assert(level.monsters@[mons0.len() + j] == mons_before[mons0.len() + j]);
                    }
                }
                assert forall|j: int| 0 <= j < q.0.len() implies (#[trigger] q.0[j]).0 < x || (q.0[j].0 == x
                    && q.0[j].1 < y + 1) by {
                    if j < p.0.len() {
                        assert(q.0[j] == p.0[j]);
                    }
                }
                if is_wall_type(t) {
                    assert forall|a: int, b: int| 0 <= a < COLNO && 0 <= b < ROWNO implies #[trigger] level.cell(a, b) == if (
                        (a < x || (a == x && b < y + 1)) && swamp_pool(*old(level), *room, a, b)) {
                        Cell { typ: CellType::Pool, ..old(level).cell(a, b) }
                    } else {
                        old(level).cell(a, b)
                    } by {
                    }
                } else if (x + y) % 2 != 0 {
                    assert forall|a: int, b: int| 0 <= a < COLNO && 0 <= b < ROWNO implies #[trigger] level.cell(a, b) == if (
                        (a < x || (a == x && b < y + 1)) && swamp_pool(*old(level), *room, a, b)) {
                        Cell { typ: CellType::Pool, ..old(level).cell(a, b) }
                    } else {
                        old(level).cell(a, b)
                    } by {
                    }
                }
            }
            y = y + 1;
        }
        proof {
            let q = swamp_columns(p0, mons0, cells, *room, (x + 1 - room.x) as nat);
            assert(q == swamp_column(c0, mons0, cells, *room, x as int, room.height as nat));
        }
        x = x + 1;
    }
}

/// The level is the same apart from its terrain cells.
pub open spec fn same_but_cells(old: Level, new: Level) -> bool {
    &&& new.wf()
    &&& new.dlevel == old.dlevel
    &&& new.explored@ == old.explored@
    &&& new.traps@ == old.traps@
    &&& new.monsters@ == old.monsters@
    &&& new.objects@ == old.objects@
    &&& new.stairs@ == old.stairs@
    &&& new.flags == old.flags
}

/// Cell `(x, y)` after the cells of room `r` were given the lighting `lit`.
pub open spec fn relit_cell(old: Level, r: Room, lit: bool, x: int, y: int) -> Cell {
    if in_room(r, x, y) { Cell { lit: lit, ..old.cell(x, y) } } else { old.cell(x, y) }
}

/// Light (or darken) every cell of a room.
fn light_room(level: &mut Level, room: &Room, lit: bool)
    requires
        old(level).wf(),
        room.fits(),
    ensures
        same_but_cells(*old(level), *final(level)),
        forall|a: int, b: int| 0 <= a < COLNO && 0 <= b < ROWNO ==> #[trigger] final(level).cell(a, b)
            == relit_cell(*old(level), *room, lit, a, b),
{
    let mut x = room.x;
    while x < room.x + room.width
        invariant
            room.fits(),
            room.x <= x <= room.x + room.width,
            same_but_cells(*old(level), *level),
            forall|a: int, b: int| 0 <= a < COLNO && 0 <= b < ROWNO ==> #[trigger] level.cell(a, b) == if a < x {
                relit_cell(*old(level), *room, lit, a, b)
            } else {
                old(level).cell(a, b)
            },
        decreases room.x + room.width - x,
    {
        let mut y = room.y;
        while y < room.y + room.height
            invariant
                room.fits(),
                room.x <= x < room.x + room.width,
                room.y <= y <= room.y + room.height,
                same_but_cells(*old(level), *level),
                forall|a: int, b: int| 0 <= a < COLNO && 0 <= b < ROWNO ==> #[trigger] level.cell(a, b) == if (
                    a < x || (a == x && b < y)) {
                    relit_cell(*old(level), *room, lit, a, b)
                } else {
                    old(level).cell(a, b)
                },
            decreases room.y + room.height - y,
        {
            let ghost before = *level;
            level.set_lit(x, y, lit);
            proof {
                assert forall|a: int, b: int| 0 <= a < COLNO && 0 <= b < ROWNO implies #[trigger] level.cell(a, b) == if (
                    a < x || (a == x && b < y + 1)) {
                    relit_cell(*old(level), *room, lit, a, b)
                } else {
                    old(level).cell(a, b)
                } by {
                    if cell_index(a, b) == cell_index(x as int, y as int) {
                        lemma_index_unique(a, b, x as int, y as int);
                    } else {
                        assert(level.cell(a, b) == before.cell(a, b));
                    }
                }
            }
            y = y + 1;
        }
        x = x + 1;
    }
}

/// Gold in one vault pile: `50 * depth * roll`, at least 50.
pub open spec fn vault_gold(depth: int, roll: int) -> int {
    if 50 * depth * roll > 50 { 50 * depth * roll } else { 50 }
}

/// The gold piles laid on the first `n` cells of column `x` of room `r`,
/// from state `s`: every cell that is not a wall gets a pile of
/// `vault_gold(depth, rnd(10))` pieces, drawn in turn.
pub open spec fn vault_column(objs: Seq<Object>, cells: Seq<Cell>, r: Room, x: int, depth: int, s: u64, n: nat) -> (
    Seq<Object>,
    u64,
)
    decreases n,
{
    if n == 0 {
        (objs, s)
    } else {
        let p = vault_column(objs, cells, r, x, depth, s, (n - 1) as nat);
        let y = r.y + n - 1;
        if is_wall_type(cells[cell_index(x, y)].typ) {
            p
        } else {
            (
                p.0.push(
                    Object {
                        quantity: vault_gold(depth, rnd_at(p.1, 10)) as i32,
                        ..new_object_at(ObjectClass::Coin, x, y)
                    },
                ),
                step(p.1),
            )
        }
    }
}

/// The gold piles laid on the first `m` columns of room `r`, from state `s`.
pub open spec fn vault_columns(objs: Seq<Object>, cells: Seq<Cell>, r: Room, depth: int, s: u64, m: nat) -> (
    Seq<Object>,
    u64,
)
    decreases m,
{
    if m == 0 {
        (objs, s)
    } else {
        let p = vault_columns(objs, cells, r, depth, s, (m - 1) as nat);
        vault_column(p.0, cells, r, r.x + m - 1, depth, p.1, r.height as nat)
    }
}

/// A vault was filled from state `s`: a gold pile on every non-wall cell of
/// the room, column by column; then a teleportation trap at a random cell of
/// the room one time in three; and the whole room unlit.
pub open spec fn vault_populated(old: Level, new: Level, r: Room, s: u64, s2: u64) -> bool {
    let g = vault_columns(old.objects@, old.cells@, r, old.dlevel.level_num as int, s, r.width as nat);
    let t = g.1;
    let p = room_point(r, step(t));
    &&& new.wf()
    &&& new.dlevel == old.dlevel
    &&& new.explored@ == old.explored@
    &&& new.monsters@ == old.monsters@
    &&& new.stairs@ == old.stairs@
    &&& new.flags == old.flags
    &&& forall|a: int, b: int| 0 <= a < COLNO && 0 <= b < ROWNO ==> #[trigger] new.cell(a, b)
        == relit_cell(old, r, false, a, b)
    &&& new.objects@ == g.0
    &&& if rn2_at(t, 3) == 0 {
        &&& new.traps@ == old.traps@.push(new_trap(p.0, p.1, TrapType::Teleport))
        &&& s2 == step(step(step(t)))
    } else {
        &&& new.traps@ == old.traps@
        &&& s2 == step(t)
    }
}

/// Fill a vault with gold piles, perhaps a teleportation trap for access
/// (one chance in three), and make it dark.
pub fn populate_vault(level: &mut Level, room: &Room, rng: &mut GameRng)
    requires
        old(level).wf(),
        room.fits(),
    ensures
        vault_populated(*old(level), *final(level), *room, old(rng)@, final(rng)@),
{
    let depth = level.dlevel.depth();
    let ghost cells = old(level).cells@;
    let ghost objs = old(level).objects@;
    let ghost s0 = old(rng)@;
    let mut x = room.x;
    while x < room.x + room.width
        invariant
            room.fits(),
            room.x <= x <= room.x + room.width,
            -128 <= depth <= 127,
            depth == old(level).dlevel.level_num,
            cells == old(level).cells@,
            objs == old(level).objects@,
            s0 == old(rng)@,
            level.wf(),
            level.dlevel == old(level).dlevel,
            level.cells@ == old(level).cells@,
            level.explored@ == old(level).explored@,
            level.traps@ == old(level).traps@,
            level.monsters@ == old(level).monsters@,
            level.stairs@ == old(level).stairs@,
            level.flags == old(level).flags,
            (level.objects@, rng@) == vault_columns(objs, cells, *room, depth as int, s0, (x - room.x) as nat),
        decreases room.x + room.width - x,
    {
        let ghost c0 = vault_columns(objs, cells, *room, depth as int, s0, (x - room.x) as nat);
        let mut y = room.y;
        while y < room.y + room.height
            invariant
                room.fits(),
                room.x <= x < room.x + room.width,
                room.y <= y <= room.y + room.height,
                -128 <= depth <= 127,
                depth == old(level).dlevel.level_num,
                cells == old(level).cells@,
                level.wf(),
                level.dlevel == old(level).dlevel,
                level.cells@ == old(level).cells@,
                level.explored@ == old(level).explored@,
                level.traps@ == old(level).traps@,
                level.monsters@ == old(level).monsters@,
                level.stairs@ == old(level).stairs@,
                level.flags == old(level).flags,
                (level.objects@, rng@) == vault_column(c0.0, cells, *room, x as int, depth as int, c0.1, (y
                    - room.y) as nat),
            decreases room.y + room.height - y,
        {
            if !level.cell_type(x, y).is_wall() {
                let roll = rng.rnd(10) as i32;
                assert(-64000 <= 50 * depth * roll <= 63500) by (nonlinear_arith)
                    requires
                        1 <= roll <= 10,
                        -128 <= depth <= 127;
                let raw = 50 * depth * roll;
                let amount: i32 = if raw > 50 { raw } else { 50 };
                let mut gold = Object::new(ObjectId(0), 0, ObjectClass::Coin);
                gold.quantity = amount;
                level.add_object(gold, x as i8, y as i8);
            }
            y = y + 1;
        }
        x = x + 1;
    }
    let ghost t = rng@;
    if rng.one_in(3) {
        let (tx, ty) = room.random_point(rng);
        level.add_trap(tx as i8, ty as i8, TrapType::Teleport);
    }
    let ghost filled = *level;
    light_room(level, room, false);
    proof {
        assert forall|a: int, b: int| 0 <= a < COLNO && 0 <= b < ROWNO implies #[trigger] level.cell(a, b)
            == relit_cell(*old(level), *room, false, a, b) by {
            assert(filled.cell(a, b) == old(level).cell(a, b));
        }
    }
}

/// Room kinds that are filled with monsters or features when the level is made.
pub open spec fn populated_kind(t: RoomType) -> bool {
    matches!(t, RoomType::Court | RoomType::Swamp | RoomType::Beehive | RoomType::Morgue
        | RoomType::Barracks | RoomType::Zoo | RoomType::Temple | RoomType::LeprechaunHall
        | RoomType::CockatriceNest | RoomType::Anthole)
}

/// Check if a room type requires special population.
pub fn needs_population(room_type: RoomType) -> (r: bool)
    ensures
        r == populated_kind(room_type),
{
    matches!(room_type, RoomType::Court | RoomType::Swamp | RoomType::Beehive | RoomType::Morgue
        | RoomType::Barracks | RoomType::Zoo | RoomType::Temple | RoomType::LeprechaunHall
        | RoomType::CockatriceNest | RoomType::Anthole)
}

/// Check if a room type is a vault.
pub fn is_vault(room_type: RoomType) -> (r: bool)
    ensures
        r == (room_type == RoomType::Vault),
{
    matches!(room_type, RoomType::Vault)
}

/// Plain floor, where a fountain, sink, altar or grave may be placed.
pub open spec fn floor_like(t: CellType) -> bool {
    t == CellType::Room || t == CellType::Corridor
}

/// The cells of `old` with the terrain of `(x, y)` replaced by `t`.
pub open spec fn retyped(old: Level, x: int, y: int, t: CellType) -> Seq<Cell> {
    old.cells@.update(cell_index(x, y), Cell { typ: t, ..old.cell(x, y) })
}

/// The trap that `Level::add_trap` places.
pub open spec fn new_trap(x: int, y: int, t: TrapType) -> Trap {
    Trap { x: x as i8, y: y as i8, trap_type: t, activated: false, seen: false,
        once: t == TrapType::LandMine, madeby_u: false, launch_oid: None }
}

/// A fresh object of class `c` lying at `(x, y)`.
pub open spec fn new_object_at(c: ObjectClass, x: int, y: int) -> Object {
    Object { id: ObjectId(0), object_type: 0, class: c, quantity: 1, x: x as i8, y: y as i8,
        buc: crate::object::BucStatus::Uncursed, enchantment: 0, recharged: 0, trapped: false,
        container: false, artifact: 0, lit: false, age: 0 }
}

/// The level is the same apart from its cells and traps.
pub open spec fn same_but_cells_traps(old: Level, new: Level) -> bool {
    &&& new.wf()
    &&& new.dlevel == old.dlevel
    &&& new.explored@ == old.explored@
    &&& new.monsters@ == old.monsters@
    &&& new.objects@ == old.objects@
    &&& new.stairs@ == old.stairs@
    &&& new.flags == old.flags
}

/// Create a fountain at `(x, y)` if it is plain floor; with `trap_flag`,
/// a magic portal comes with it one time in four.
pub fn mkfount(level: &mut Level, trap_flag: bool, x: usize, y: usize, rng: &mut GameRng) -> (r: bool)
    requires
        old(level).wf(),
        x < COLNO,
        y < ROWNO,
    ensures
        r == floor_like(old(level).cell(x as int, y as int).typ),
        !r ==> *final(level) == *old(level) && final(rng)@ == old(rng)@,
        r ==> same_but_cells_traps(*old(level), *final(level))
            && final(level).cells@ == retyped(*old(level), x as int, y as int, CellType::Fountain)
            && final(rng)@ == (if trap_flag { step(old(rng)@) } else { old(rng)@ })
            && final(level).traps@ == (if trap_flag && rn2_at(old(rng)@, 4) == 0 {
                old(level).traps@.push(new_trap(x as int, y as int, TrapType::MagicPortal))
            } else {
                old(level).traps@
            }),
{
    let t = level.cell_type(x, y);
    if !(t == CellType::Room || t == CellType::Corridor) {
        return false;
    }
    level.set_cell_type(x, y, CellType::Fountain);
    if trap_flag && rng.one_in(4) {
        level.add_trap(x as i8, y as i8, TrapType::MagicPortal);
    }
    true
}

/// Create a sink at `(x, y)` if it is plain floor.
pub fn mksink(level: &mut Level, x: usize, y: usize) -> (r: bool)
    requires
        old(level).wf(),
        x < COLNO,
        y < ROWNO,
    ensures
        r == floor_like(old(level).cell(x as int, y as int).typ),
        !r ==> *final(level) == *old(level),
        r ==> same_but_cells(*old(level), *final(level))
            && final(level).cells@ == retyped(*old(level), x as int, y as int, CellType::Sink),
{
    let t = level.cell_type(x, y);
    if !(t == CellType::Room || t == CellType::Corridor) {
        return false;
    }
    level.set_cell_type(x, y, CellType::Sink);
    true
}

/// Altar flag bits for an alignment: 1 lawful, 2 neutral, 3 chaotic, 0 none.
pub open spec fn altar_bits(alignment: int) -> u8 {
    if alignment == 1 { 1 } else if alignment == 0 { 2 } else if alignment == -1 { 3 } else { 0 }
}

/// Create an altar of the given alignment (-1 chaotic, 0 neutral, 1 lawful)
/// at `(x, y)` if it is plain floor; the alignment is kept in the cell's flags.
pub fn mkaltar(level: &mut Level, x: usize, y: usize, alignment: i8) -> (r: bool)
    requires
        old(level).wf(),
        x < COLNO,
        y < ROWNO,
    ensures
        r == floor_like(old(level).cell(x as int, y as int).typ),
        !r ==> *final(level) == *old(level),
        r ==> same_but_cells(*old(level), *final(level))
            && final(level).cells@ == old(level).cells@.update(cell_index(x as int, y as int), Cell {
                typ: CellType::Altar, flags: altar_bits(alignment as int), ..old(level).cell(x as int, y as int) }),
{
    let t = level.cell_type(x, y);
    if !(t == CellType::Room || t == CellType::Corridor) {
        return false;
    }
    let align_bits: u8 = match alignment {
        1 => 1,
        0 => 2,
        -1 => 3,
        _ => 0,
    };
    let mut c = level.get_cell(x, y);
    c.typ = CellType::Altar;
    c.flags = align_bits;
    level.set_cell(x, y, c);
    true
}

/// Alignment of a randomly placed altar for a roll of `0..3`.
pub open spec fn altar_alignment(roll: int) -> int {
    if roll == 0 { 1 } else if roll == 1 { 0 } else { -1 }
}

/// Create an altar of random alignment at a random cell of the room, if that
/// cell is plain floor.
pub fn create_altar(level: &mut Level, room: &Room, rng: &mut GameRng) -> (r: bool)
    requires
        old(level).wf(),
        room.fits(),
    ensures
        ({
            let s = old(rng)@;
            let x = room.x + rn2_at(s, room.width as u32);
            let y = room.y + rn2_at(step(s), room.height as u32);
            &&& r == floor_like(old(level).cell(x, y).typ)
            &&& !r ==> *final(level) == *old(level) && final(rng)@ == step(step(s))
            &&& r ==> same_but_cells(*old(level), *final(level))
                && final(rng)@ == step(step(step(s)))
                && final(level).cells@ == old(level).cells@.update(cell_index(x, y), Cell {
                    typ: CellType::Altar, flags: altar_bits(altar_alignment(rn2_at(step(step(s)), 3) as int)),
                    ..old(level).cell(x, y) })
        }),
{
    let (x, y) = room.random_point(rng);
    let t = level.cell_type(x, y);
    if !(t == CellType::Room || t == CellType::Corridor) {
        return false;
    }
    let alignment: i8 = match rng.rn2(3) {
        0 => 1,
        1 => 0,
        _ => -1,
    };
    mkaltar(level, x, y, alignment)
}

/// Create a grave at `(x, y)` if it is plain floor.
pub fn mkgrave(level: &mut Level, x: usize, y: usize) -> (r: bool)
    requires
        old(level).wf(),
        x < COLNO,
        y < ROWNO,
    ensures
        r == floor_like(old(level).cell(x as int, y as int).typ),
        !r ==> *final(level) == *old(level),
        r ==> same_but_cells(*old(level), *final(level))
            && final(level).cells@ == retyped(*old(level), x as int, y as int, CellType::Grave),
{
    let t = level.cell_type(x, y);
    if !(t == CellType::Room || t == CellType::Corridor) {
        return false;
    }
    level.set_cell_type(x, y, CellType::Grave);
    true
}

/// Make a grave at `(x, y)`; one time in four it holds `10 + rn2(50)` gold.
pub fn make_grave(level: &mut Level, x: usize, y: usize, rng: &mut GameRng) -> (r: bool)
    requires
        old(level).wf(),
        x < COLNO,
        y < ROWNO,
    ensures
        r == floor_like(old(level).cell(x as int, y as int).typ),
        !r ==> *final(level) == *old(level) && final(rng)@ == old(rng)@,
        r ==> ({
            let s = old(rng)@;
            let gold = rn2_at(step(s), 4) == 0;
            &&& final(level).wf()
            &&& final(level).dlevel == old(level).dlevel
            &&& final(level).explored@ == old(level).explored@
            &&& final(level).traps@ == old(level).traps@
            &&& final(level).monsters@ == old(level).monsters@
            &&& final(level).stairs@ == old(level).stairs@
            &&& final(level).flags == old(level).flags
            &&& final(level).cells@ == retyped(*old(level), x as int, y as int, CellType::Grave)
            &&& final(level).objects@ == (if gold {
                old(level).objects@.push(Object { quantity: (rn2_at(step(step(s)), 50) + 10) as i32,
                    ..new_object_at(ObjectClass::Coin, x as int, y as int) })
            } else {
                old(level).objects@
            })
            &&& final(rng)@ == (if gold { step(step(step(s))) } else { step(step(s)) })
        }),
{
    if !mkgrave(level, x, y) {
        return false;
    }
    // a corpse would be buried here half of the time
    let _corpse = rng.one_in(2);
    if rng.one_in(4) {
        let gold_amount = rng.rn2(50) as i32 + 10;
        let mut gold = Object::new(ObjectId(0), 0, ObjectClass::Coin);
        gold.quantity = gold_amount;
        level.add_object(gold, x as i8, y as i8);
    }
    true
}

/// A cell where shop goods may be laid out: plain floor with nobody on it.
pub open spec fn good_shop_spot(l: Level, x: int, y: int) -> bool {
    &&& floor_like(l.cell(x, y).typ)
    &&& forall|j: int| 0 <= j < l.monsters@.len() ==> !(l.monsters@[j].x == x && l.monsters@[j].y == y)
}

/// Check if a position is good for a shop item: plain floor with no monster.
fn stock_room_goodpos(level: &Level, x: usize, y: usize) -> (r: bool)
    requires
        level.wf(),
        x < COLNO,
        y < ROWNO,
    ensures
        r == good_shop_spot(*level, x as int, y as int),
{
    let t = level.cell_type(x, y);
    if !(t == CellType::Room || t == CellType::Corridor) {
        return false;
    }
    if level.monster_at(x as i8, y as i8).is_some() {
        return false;
    }
    true
}

/// Whether a room kind is a shop.
pub open spec fn is_shop_kind(t: RoomType) -> bool {
    matches!(t, RoomType::GeneralShop | RoomType::ArmorShop | RoomType::ScrollShop | RoomType::PotionShop
        | RoomType::WeaponShop | RoomType::FoodShop | RoomType::RingShop | RoomType::WandShop
        | RoomType::ToolShop | RoomType::BookShop | RoomType::HealthFoodShop | RoomType::CandleShop)
}

/// The class of goods a shop sells (`Random` for a general store).
pub open spec fn shop_item_class(t: RoomType) -> ObjectClass {
    match t {
        RoomType::ArmorShop => ObjectClass::Armor,
        RoomType::WeaponShop => ObjectClass::Weapon,
        RoomType::ScrollShop => ObjectClass::Scroll,
        RoomType::PotionShop => ObjectClass::Potion,
        RoomType::FoodShop | RoomType::HealthFoodShop => ObjectClass::Food,
        RoomType::RingShop => ObjectClass::Ring,
        RoomType::WandShop => ObjectClass::Wand,
        RoomType::ToolShop | RoomType::CandleShop => ObjectClass::Tool,
        RoomType::BookShop => ObjectClass::Spellbook,
        _ => ObjectClass::Random,
    }
}

/// The cells given goods so far, and the generator state.
pub type StockPlan = (Seq<(int, int)>, u64);

/// The plan after cell `(x, y)`: a good spot gets goods one time in two.
pub open spec fn stock_cell(p: StockPlan, l: Level, x: int, y: int) -> StockPlan {
    if good_shop_spot(l, x, y) {
        if rn2_at(p.1, 2) == 0 {
            (p.0.push((x, y)), step(p.1))
        } else {
            (p.0, step(p.1))
        }
    } else {
        p
    }
}

/// The plan after the first `n` cells of column `x` of room `r`.
pub open spec fn stock_column(p: StockPlan, l: Level, r: Room, x: int, n: nat) -> StockPlan
    decreases n,
{
    if n == 0 {
        p
    } else {
        stock_cell(stock_column(p, l, r, x, (n - 1) as nat), l, x, r.y + n - 1)
    }
}

/// The plan after the first `m` columns of room `r`.
pub open spec fn stock_columns(p: StockPlan, l: Level, r: Room, m: nat) -> StockPlan
    decreases m,
{
    if m == 0 {
        p
    } else {
        stock_column(stock_columns(p, l, r, (m - 1) as nat), l, r, r.x + m - 1, r.height as nat)
    }
}

/// Fresh goods of class `c` lying at each of the cells `ps`.
pub open spec fn goods_at(ps: Seq<(int, int)>, c: ObjectClass) -> Seq<Object> {
    ps.map_values(|p: (int, int)| new_object_at(c, p.0, p.1))
}

/// A shop was stocked from state `s`: goods of its class were added, cell by
/// cell, column by column, as `stock_cell` says, on the map and with the
/// monsters of `new`.
pub open spec fn shop_stocked(old_objs: Seq<Object>, new: Level, r: Room, s: u64, s2: u64) -> bool {
    let plan = stock_columns((Seq::empty(), s), new, r, r.width as nat);
    &&& new.objects@ == old_objs + goods_at(plan.0, shop_item_class(r.room_type))
    &&& s2 == plan.1
}

/// Stock a shop: each good spot gets an item of the shop's class half of the time.
fn stock_room(level: &mut Level, room: &Room, rng: &mut GameRng)
    requires
        old(level).wf(),
        room.fits(),
    ensures
        final(level).wf(),
        final(level).dlevel == old(level).dlevel,
        final(level).cells@ == old(level).cells@,
        final(level).explored@ == old(level).explored@,
        final(level).traps@ == old(level).traps@,
        final(level).monsters@ == old(level).monsters@,
        final(level).stairs@ == old(level).stairs@,
        final(level).flags == old(level).flags,
        shop_stocked(old(level).objects@, *final(level), *room, old(rng)@, final(rng)@),
{
    let item_class = match room.room_type {
        RoomType::ArmorShop => ObjectClass::Armor,
        RoomType::WeaponShop => ObjectClass::Weapon,
        RoomType::ScrollShop => ObjectClass::Scroll,
        RoomType::PotionShop => ObjectClass::Potion,
        RoomType::FoodShop | RoomType::HealthFoodShop => ObjectClass::Food,
        RoomType::RingShop => ObjectClass::Ring,
        RoomType::WandShop => ObjectClass::Wand,
        RoomType::ToolShop => ObjectClass::Tool,
        RoomType::BookShop => ObjectClass::Spellbook,
        RoomType::CandleShop => ObjectClass::Tool,
        _ => ObjectClass::Random,
    };
    let ghost l0 = *old(level);
    let ghost p0: StockPlan = (Seq::empty(), old(rng)@);
    proof {
        assert(level.objects@ =~= old(level).objects@ + goods_at(Seq::empty(), item_class));
    }
    let mut x = room.x;
    while x < room.x + room.width
        invariant
            room.fits(),
            room.x <= x <= room.x + room.width,
            item_class == shop_item_class(room.room_type),
            l0 == *old(level),
            p0 == (Seq::<(int, int)>::empty(), old(rng)@),
            level.wf(),
            level.dlevel == old(level).dlevel,
            level.cells@ == old(level).cells@,
            level.explored@ == old(level).explored@,
            level.traps@ == old(level).traps@,
            level.monsters@ == old(level).monsters@,
            level.stairs@ == old(level).stairs@,
            level.flags == old(level).flags,
            ({
                let p = stock_columns(p0, l0, *room, (x - room.x) as nat);
                level.objects@ == old(level).objects@ + goods_at(p.0, item_class) && rng@ == p.1
            }),
        decreases room.x + room.width - x,
    {
        let ghost c0 = stock_columns(p0, l0, *room, (x - room.x) as nat);
        let mut y = room.y;
        while y < room.y + room.height
            invariant
                room.fits(),
                room.x <= x < room.x + room.width,
                room.y <= y <= room.y + room.height,
                item_class == shop_item_class(room.room_type),
                l0 == *old(level),
                level.wf(),
                level.dlevel == old(level).dlevel,
                level.cells@ == old(level).cells@,
                level.explored@ == old(level).explored@,
                level.traps@ == old(level).traps@,
                level.monsters@ == old(level).monsters@,
                level.stairs@ == old(level).stairs@,
                level.flags == old(level).flags,
                ({
                    let p = stock_column(c0, l0, *room, x as int, (y - room.y) as nat);
                    level.objects@ == old(level).objects@ + goods_at(p.0, item_class) && rng@ == p.1
                }),
            decreases room.y + room.height - y,
        {
            let ghost p = stock_column(c0, l0, *room, x as int, (y - room.y) as nat);
            let good = stock_room_goodpos(level, x, y);
            proof {
                assert(good == good_shop_spot(l0, x as int, y as int));
            }
            if good {
                if rng.one_in(2) {
                    let item = Object::new(ObjectId(0), 0, item_class);
                    level.add_object(item, x as i8, y as i8);
                }
            }
            proof {
                let q = stock_column(c0, l0, *room, x as int, (y - room.y + 1) as nat);
                assert(q == stock_cell(p, l0, x as int, y as int));
                assert(level.objects@ =~= old(level).objects@ + goods_at(q.0, item_class));
            }
            y = y + 1;
        }
        proof {
            let q = stock_columns(p0, l0, *room, (x + 1 - room.x) as nat);
            assert(q == stock_column(c0, l0, *room, x as int, room.height as nat));
        }
        x = x + 1;
    }
    proof {
        let l = *level;
        assert forall|a: int, b: int| good_shop_spot(l, a, b) == good_shop_spot(l0, a, b) by {}
        lemma_stock_columns_same(p0, l0, l, *room, room.width as nat);
    }
}

/// The stocking plan reads only the map and the monsters of the level.
proof fn lemma_stock_columns_same(p: StockPlan, a: Level, b: Level, r: Room, m: nat)
    requires
        forall|x: int, y: int| good_shop_spot(a, x, y) == good_shop_spot(b, x, y),
    ensures
        stock_columns(p, a, r, m) == stock_columns(p, b, r, m),
    decreases m,
{
    if m > 0 {
        lemma_stock_columns_same(p, a, b, r, (m - 1) as nat);
        lemma_stock_column_same(stock_columns(p, a, r, (m - 1) as nat), a, b, r, r.x + m - 1, r.height as nat);
    }
}

proof fn lemma_stock_column_same(p: StockPlan, a: Level, b: Level, r: Room, x: int, n: nat)
    requires
        forall|x: int, y: int| good_shop_spot(a, x, y) == good_shop_spot(b, x, y),
    ensures
        stock_column(p, a, r, x, n) == stock_column(p, b, r, x, n),
    decreases n,
{
    if n > 0 {
        lemma_stock_column_same(p, a, b, r, x, (n - 1) as nat);
    }
}

/// Place the shopkeeper on the first free cell of the room next to the entrance.
fn shkinit(level: &mut Level, room: &Room, door_x: usize, door_y: usize, rng: &mut GameRng)
    requires
        old(level).wf(),
        room.fits(),
        door_x < COLNO - 1,
        door_y < ROWNO - 1,
    ensures
        final(level).wf(),
        final(level).dlevel == old(level).dlevel,
        final(level).cells@ == old(level).cells@,
        final(level).explored@ == old(level).explored@,
        final(level).traps@ == old(level).traps@,
        final(level).objects@ == old(level).objects@,
        final(level).stairs@ == old(level).stairs@,
        final(level).flags == old(level).flags,
        attendant_placed(old(level).monsters@, final(level).monsters@, *room, door_x as int, door_y as int, true,
            old(rng)@, final(rng)@),
{
    place_attendant(level, room, door_x, door_y, true, rng);
}

/// Turn a room into a shop of kind `shop_type`: a shopkeeper by the entrance
/// (the room's top-left cell) and goods of the shop's class. Refused, with
/// nothing changed, when `shop_type` is not a shop.
pub fn mkshop(level: &mut Level, room: &mut Room, shop_type: RoomType, rng: &mut GameRng) -> (r: bool)
    requires
        old(level).wf(),
        old(room).fits(),
    ensures
        r == is_shop_kind(shop_type),
        !r ==> *final(level) == *old(level) && *final(room) == *old(room) && final(rng)@ == old(rng)@,
        r ==> *final(room) == (Room { room_type: shop_type, ..*old(room) })
            && final(level).wf()
            && final(level).dlevel == old(level).dlevel
            && final(level).cells@ == old(level).cells@
            && final(level).explored@ == old(level).explored@
            && final(level).traps@ == old(level).traps@
            && final(level).stairs@ == old(level).stairs@
            && final(level).flags == old(level).flags
            && attendant_placed(old(level).monsters@, final(level).monsters@, *final(room),
                old(room).x as int, old(room).y as int, true, old(rng)@,
                attendant_state(old(level).monsters@, *final(room), old(room).x as int, old(room).y as int, old(rng)@))
            && shop_stocked(old(level).objects@, *final(level), *final(room),
                attendant_state(old(level).monsters@, *final(room), old(room).x as int, old(room).y as int, old(rng)@),
                final(rng)@),
{
    if !matches!(shop_type, RoomType::GeneralShop | RoomType::ArmorShop | RoomType::ScrollShop
        | RoomType::PotionShop | RoomType::WeaponShop | RoomType::FoodShop | RoomType::RingShop
        | RoomType::WandShop | RoomType::ToolShop | RoomType::BookShop | RoomType::HealthFoodShop
        | RoomType::CandleShop) {
        return false;
    }
    room.room_type = shop_type;
    let door_x = room.x;
    let door_y = room.y;
    shkinit(level, room, door_x, door_y, rng);
    stock_room(level, room, rng);
    true
}

/// Turn a room into a temple: an altar of the given alignment in its center
/// (where the floor allows) and a peaceful priest next to it.
pub fn mktemple(level: &mut Level, room: &mut Room, alignment: i8, rng: &mut GameRng)
    requires
        old(level).wf(),
        old(room).fits(),
    ensures
        *final(room) == (Room { room_type: RoomType::Temple, ..*old(room) }),
        ({
            let cx = old(room).x + old(room).width / 2;
            let cy = old(room).y + old(room).height / 2;
            &&& final(level).wf()
            &&& final(level).dlevel == old(level).dlevel
            &&& final(level).cells@ == (if floor_like(old(level).cell(cx, cy).typ) {
                old(level).cells@.update(cell_index(cx, cy), Cell { typ: CellType::Altar,
                    flags: altar_bits(alignment as int), ..old(level).cell(cx, cy) })
            } else {
                old(level).cells@
            })
            &&& final(level).explored@ == old(level).explored@
            &&& final(level).traps@ == old(level).traps@
            &&& final(level).objects@ == old(level).objects@
            &&& final(level).stairs@ == old(level).stairs@
            &&& final(level).flags == old(level).flags
            &&& attendant_placed(old(level).monsters@, final(level).monsters@, *final(room), cx, cy, false, old(rng)@,
                final(rng)@)
        }),
{
    room.room_type = RoomType::Temple;
    let (cx, cy) = room.center();
    let _placed = mkaltar(level, cx, cy, alignment);
    priestini(level, room, cx, cy, rng);
}

/// Turn a room into a swamp.
pub fn mkswamp(level: &mut Level, room: &mut Room, rng: &mut GameRng)
    requires
        old(level).wf(),
        old(room).fits(),
    ensures
        *final(room) == (Room { room_type: RoomType::Swamp, ..*old(room) }),
        swamp_populated(*old(level), *final(level), *final(room), old(rng)@, final(rng)@),
{
    room.room_type = RoomType::Swamp;
    populate_swamp(level, room, rng);
}

/// Whether an old monster stands at `(x, y)`.
pub open spec fn occupied(mons: Seq<Monster>, x: int, y: int) -> bool {
    exists|i: int| 0 <= i < mons.len() && mons[i].x == x && mons[i].y == y
}

/// What filling a zoo has planned so far: the monsters made, each with its
/// cell and the state its hit points were drawn from, the cells given food,
/// and the generator state.
pub type ZooPlan = (Seq<(int, int, u64)>, Seq<(int, int)>, u64);

/// The plan after cell `(x, y)`: a cell that is no wall and holds no old
/// monster gets a sleeping monster one time in three, and then food one
/// time in two.
pub open spec fn zoo_cell(p: ZooPlan, mons: Seq<Monster>, cells: Seq<Cell>, x: int, y: int) -> ZooPlan {
    if is_wall_type(cells[cell_index(x, y)].typ) || occupied(mons, x, y) {
        p
    } else if rn2_at(p.2, 3) == 0 {
        let s1 = step(p.2);
        let s2 = step(s1);
        if rn2_at(s2, 2) == 0 {
            (p.0.push((x, y, s1)), p.1.push((x, y)), step(s2))
        } else {
            (p.0.push((x, y, s1)), p.1, step(s2))
        }
    } else {
        (p.0, p.1, step(p.2))
    }
}

/// The plan after the first `n` cells of column `x` of room `r`.
pub open spec fn zoo_column(p: ZooPlan, mons: Seq<Monster>, cells: Seq<Cell>, r: Room, x: int, n: nat) -> ZooPlan
    decreases n,
{
    if n == 0 {
        p
    } else {
        zoo_cell(zoo_column(p, mons, cells, r, x, (n - 1) as nat), mons, cells, x, r.y + n - 1)
    }
}

/// The plan after the first `m` columns of room `r`.
pub open spec fn zoo_columns(p: ZooPlan, mons: Seq<Monster>, cells: Seq<Cell>, r: Room, m: nat) -> ZooPlan
    decreases m,
{
    if m == 0 {
        p
    } else {
        zoo_column(zoo_columns(p, mons, cells, r, (m - 1) as nat), mons, cells, r, r.x + m - 1, r.height as nat)
    }
}

/// Fresh food lying at each of the cells `ps`.
pub open spec fn food_at(ps: Seq<(int, int)>) -> Seq<Object> {
    ps.map_values(|p: (int, int)| new_object_at(ObjectClass::Food, p.0, p.1))
}

/// `mons` is `old` followed by the monsters of `plan`, each a sleeping
/// monster of no special class made at its cell.
pub open spec fn zoo_monsters(old: Seq<Monster>, mons: Seq<Monster>, plan: Seq<(int, int, u64)>) -> bool {
    &&& mons.len() == old.len() + plan.len()
    &&& mons.subrange(0, old.len() as int) == old
    &&& forall|j: int| 0 <= j < plan.len() ==> made_monster(#[trigger] mons[old.len() + j],
        SpecialMonsterClass::RandomMonster, plan[j].0, plan[j].1, true, plan[j].2)
}

/// A zoo was filled from state `s`, cell by cell, column by column, as
/// `zoo_cell` says; then the room was lit.
pub open spec fn zoo_filled(old: Level, new: Level, r: Room, s: u64, s2: u64) -> bool {
    let plan = zoo_columns((Seq::empty(), Seq::empty(), s), old.monsters@, old.cells@, r, r.width as nat);
    &&& new.wf()
    &&& new.dlevel == old.dlevel
    &&& new.explored@ == old.explored@
    &&& new.traps@ == old.traps@
    &&& new.stairs@ == old.stairs@
    &&& new.flags == old.flags
    &&& forall|a: int, b: int| 0 <= a < COLNO && 0 <= b < ROWNO ==> #[trigger] new.cell(a, b)
        == relit_cell(old, r, true, a, b)
    &&& zoo_monsters(old.monsters@, new.monsters@, plan.0)
    &&& new.objects@ == old.objects@ + food_at(plan.1)
    &&& s2 == plan.2
}

/// Every monster a plan holds stands in a column before `x`, or in column
/// `x` above row `y`.
pub open spec fn planned_before(plan: Seq<(int, int, u64)>, x: int, y: int) -> bool {
    forall|j: int| 0 <= j < plan.len() ==> (#[trigger] plan[j]).0 < x || (plan[j].0 == x && plan[j].1 < y)
}

/// Fill a zoo: each free non-wall cell gets a sleeping monster one time in
/// three, with food beside it half of those times; then the room is lit.
pub fn fill_zoo(level: &mut Level, room: &Room, rng: &mut GameRng)
    requires
        old(level).wf(),
        room.fits(),
    ensures
        zoo_filled(*old(level), *final(level), *room, old(rng)@, final(rng)@),
{
    let ghost mons0 = old(level).monsters@;
    let ghost cells = old(level).cells@;
    let ghost p0: ZooPlan = (Seq::empty(), Seq::empty(), old(rng)@);
    proof {
        assert(level.monsters@.subrange(0, mons0.len() as int) =~= mons0);
        assert(level.objects@ =~= old(level).objects@ + food_at(Seq::empty()));
    }
    let mut x = room.x;
    while x < room.x + room.width
        invariant
            room.fits(),
            room.x <= x <= room.x + room.width,
            mons0 == old(level).monsters@,
            cells == old(level).cells@,
            p0 == (Seq::<(int, int, u64)>::empty(), Seq::<(int, int)>::empty(), old(rng)@),
            level.wf(),
            level.dlevel == old(level).dlevel,
            level.cells@ == old(level).cells@,
            level.explored@ == old(level).explored@,
            level.traps@ == old(level).traps@,
            level.stairs@ == old(level).stairs@,
            level.flags == old(level).flags,
            ({
                let p = zoo_columns(p0, mons0, cells, *room, (x - room.x) as nat);
                &&& zoo_monsters(mons0, level.monsters@, p.0)
                &&& level.objects@ == old(level).objects@ + food_at(p.1)
                &&& rng@ == p.2
                &&& planned_before(p.0, x as int, 0)
            }),
        decreases room.x + room.width - x,
    {
        let ghost c0 = zoo_columns(p0, mons0, cells, *room, (x - room.x) as nat);
        let mut y = room.y;
        while y < room.y + room.height
            invariant
                room.fits(),
                room.x <= x < room.x + room.width,
                room.y <= y <= room.y + room.height,
                mons0 == old(level).monsters@,
                cells == old(level).cells@,
                level.wf(),
                level.dlevel == old(level).dlevel,
                level.cells@ == old(level).cells@,
                level.explored@ == old(level).explored@,
                level.traps@ == old(level).traps@,
                level.stairs@ == old(level).stairs@,
                level.flags == old(level).flags,
                ({
                    let p = zoo_column(c0, mons0, cells, *room, x as int, (y - room.y) as nat);
                    &&& zoo_monsters(mons0, level.monsters@, p.0)
                    &&& level.objects@ == old(level).objects@ + food_at(p.1)
                    &&& rng@ == p.2
                    &&& planned_before(p.0, x as int, y as int)
                }),
            decreases room.y + room.height - y,
        {
            let ghost p = zoo_column(c0, mons0, cells, *room, x as int, (y - room.y) as nat);
            let ghost mons_before = level.monsters@;
            let ghost objs_before = level.objects@;
            let wall = level.cell_type(x, y).is_wall();
            let found = level.monster_at(x as i8, y as i8);
            proof {
                if occupied(mons0, x as int, y as int) {
                    let i = choose|i: int| 0 <= i < mons0.len() && mons0[i].x == x && mons0[i].y == y;
                    assert(level.monsters@[i] == level.monsters@.subrange(0, mons0.len() as int)[i]);
                }
                if found is Some {
                    let i = found->0 as int;
                    if i >= mons0.len() {
                        let j = i - mons0.len();
                        assert(made_monster(level.monsters@[mons0.len() + j], SpecialMonsterClass::RandomMonster,
                            p.0[j].0, p.0[j].1, true, p.0[j].2));
                        assert(p.0[j].0 < x || (p.0[j].0 == x && p.0[j].1 < y));
                    } else {
                        assert(level.monsters@[i] == level.monsters@.subrange(0, mons0.len() as int)[i]);
                    }
                }
            }
            if !wall && found.is_none() && rng.rn2(3) == 0 {
                let m = create_special_monster(SpecialMonsterClass::RandomMonster, x, y, true, rng);
                level.add_monster(m);
                if rng.one_in(2) {
                    let item = Object::new(ObjectId(0), 0, ObjectClass::Food);
                    level.add_object(item, x as i8, y as i8);
                }
            }
            proof {
                let q = zoo_column(c0, mons0, cells, *room, x as int, (y - room.y + 1) as nat);
                assert(q == zoo_cell(p, mons0, cells, x as int, y as int));
                assert(level.monsters@.subrange(0, mons0.len() as int) =~= mons0);
                assert forall|j: int| 0 <= j < q.0.len() implies made_monster(
                    #[trigger] level.monsters@[mons0.len() + j],
                    SpecialMonsterClass::RandomMonster,
                    q.0[j].0,
                    q.0[j].1,
                    true,
                    q.0[j].2,
                ) by {
                    if j < p.0.len() {
                        assert(q.0[j] == p.0[j]);
                        assert(level.monsters@[mons0.len() + j] == mons_before[mons0.len() + j]);
                    }
                }
                assert(level.objects@ =~= old(level).objects@ + food_at(q.1));
                assert forall|j: int| 0 <= j < q.0.len() implies (#[trigger] q.0[j]).0 < x || (q.0[j].0 == x
                    && q.0[j].1 < y + 1) by {
                    if j < p.0.len() {
                        assert(q.0[j] == p.0[j]);
                    }
                }
            }
            y = y + 1;
        }
        proof {
            let q = zoo_columns(p0, mons0, cells, *room, (x + 1 - room.x) as nat);
            assert(q == zoo_column(c0, mons0, cells, *room, x as int, room.height as nat));
            assert forall|j: int| 0 <= j < q.0.len() implies (#[trigger] q.0[j]).0 < x + 1 || (q.0[j].0 == x + 1
                && q.0[j].1 < 0) by {
            }
        }
        x = x + 1;
    }
    let ghost filled = *level;
    light_room(level, room, true);
    proof {
        assert forall|a: int, b: int| 0 <= a < COLNO && 0 <= b < ROWNO implies #[trigger] level.cell(a, b)
            == relit_cell(*old(level), *room, true, a, b) by {
            assert(filled.cell(a, b) == old(level).cell(a, b));
        }
    }
}

/// Turn a room into a zoo and fill it.
pub fn mkzoo(level: &mut Level, room: &mut Room, rng: &mut GameRng)
    requires
        old(level).wf(),
        old(room).fits(),
    ensures
        *final(room) == (Room { room_type: RoomType::Zoo, ..*old(room) }),
        zoo_filled(*old(level), *final(level), *final(room), old(rng)@, final(rng)@),
{
    room.room_type = RoomType::Zoo;
    fill_zoo(level, room, rng);
}

/// The cell of room `r` that `random_point` draws from state `s`.
pub open spec fn room_point(r: Room, s: u64) -> (int, int) {
    (r.x + rn2_at(s, r.width as u32), r.y + rn2_at(step(s), r.height as u32))
}

/// The map after the first `k` vents, vent `j` at the cell drawn from state
/// `steps(s, 2 * j)`: a plain floor cell there turns to lava.
pub open spec fn vent_cells(cells: Seq<Cell>, r: Room, s: u64, k: nat) -> Seq<Cell>
    decreases k,
{
    if k == 0 {
        cells
    } else {
        let prev = vent_cells(cells, r, s, (k - 1) as nat);
        let p = room_point(r, steps(s, (2 * (k - 1)) as nat));
        let i = cell_index(p.0, p.1);
        if floor_like(prev[i].typ) {
            prev.update(i, Cell { typ: CellType::Lava, ..prev[i] })
        } else {
            prev
        }
    }
}

/// Volcanic vents were made: `2 + rn2(4)` cells of the room drawn at
/// random, each turned to lava if it was plain floor.
pub open spec fn lava_vented(old: Level, new: Level, r: Room, s: u64, s2: u64) -> bool {
    let n = 2 + rn2_at(s, 4);
    &&& same_but_cells(old, new)
    &&& new.cells@ == vent_cells(old.cells@, r, step(s), n as nat)
    &&& s2 == steps(step(s), (2 * n) as nat)
}

/// Create `2 + rn2(4)` fumaroles: random cells of the room that are plain
/// floor turn to lava.
pub fn fumaroles(level: &mut Level, room: &Room, rng: &mut GameRng)
    requires
        old(level).wf(),
        room.fits(),
    ensures
        lava_vented(*old(level), *final(level), *room, old(rng)@, final(rng)@),
{
    let num_vents = 2 + rng.rn2(4);
    let ghost s1 = rng@;
    let mut k: u32 = 0;
    while k < num_vents
        invariant
            room.fits(),
            k <= num_vents,
            same_but_cells(*old(level), *level),
            level.cells@ == vent_cells(old(level).cells@, *room, s1, k as nat),
            rng@ == steps(s1, (2 * k) as nat),
        decreases num_vents - k,
    {
        let ghost st = rng@;
        let (x, y) = room.random_point(rng);
        proof {
            lemma_steps_succ(s1, (2 * k) as nat);
            lemma_steps_succ(s1, (2 * k + 1) as nat);
            assert(room_point(*room, st) == (x as int, y as int));
        }
        let t = level.cell_type(x, y);
        if t == CellType::Room || t == CellType::Corridor {
            level.set_cell_type(x, y, CellType::Lava);
        }
        k = k + 1;
    }
}

/// The wall cell a niche is cut at, drawn from state `s`: a side of the
/// room first, then a place along it.
pub open spec fn niche_spot(r: Room, s: u64) -> (int, int) {
    let dir = rn2_at(s, 4);
    let s1 = step(s);
    if dir == 0 {
        (r.x + rn2_at(s1, r.width as u32), r.y - 1)
    } else if dir == 1 {
        (r.x + rn2_at(s1, r.width as u32), r.y + r.height)
    } else if dir == 2 {
        (r.x - 1, r.y + rn2_at(s1, r.height as u32))
    } else {
        (r.x + r.width, r.y + rn2_at(s1, r.height as u32))
    }
}

/// The map, the traps and the generator state after one niche is cut from
/// state `s`: a wall at the spot becomes floor, with a teleportation trap
/// one time in ten.
pub open spec fn niche_cut(cells: Seq<Cell>, traps: Seq<Trap>, r: Room, s: u64) -> (Seq<Cell>, Seq<Trap>, u64) {
    let p = niche_spot(r, s);
    let s2 = step(step(s));
    let i = cell_index(p.0, p.1);
    if is_wall_type(cells[i].typ) {
        (
            cells.update(i, Cell { typ: CellType::Room, ..cells[i] }),
            if rn2_at(s2, 10) == 0 { traps.push(new_trap(p.0, p.1, TrapType::Teleport)) } else { traps },
            step(s2),
        )
    } else {
        (cells, traps, s2)
    }
}

/// `k` niches cut one after the other from state `s`.
pub open spec fn niches_cut(cells: Seq<Cell>, traps: Seq<Trap>, r: Room, s: u64, k: nat) -> (Seq<Cell>, Seq<Trap>, u64)
    decreases k,
{
    if k == 0 {
        (cells, traps, s)
    } else {
        let p = niches_cut(cells, traps, r, s, (k - 1) as nat);
        niche_cut(p.0, p.1, r, p.2)
    }
}

/// Niches were cut: `1 + rn2((width + height) / 6)` of them, one after the
/// other, and the generator moved on by the draws they took.
pub open spec fn niches_made(old: Level, new: Level, r: Room, s: u64, s2: u64) -> bool {
    let n = 1 + rn2_at(s, ((r.width + r.height) / 6) as u32);
    let res = niches_cut(old.cells@, old.traps@, r, step(s), n as nat);
    &&& same_but_cells_traps(old, new)
    &&& new.cells@ == res.0
    &&& new.traps@ == res.1
    &&& s2 == res.2
}

/// Cut a niche at `(x, y)` if it is a wall: it becomes floor, with a
/// teleportation trap one time in ten.
fn place_niche(level: &mut Level, x: usize, y: usize, rng: &mut GameRng)
    requires
        old(level).wf(),
        x < COLNO,
        y < ROWNO,
    ensures
        !is_wall_type(old(level).cell(x as int, y as int).typ) ==> *final(level) == *old(level)
            && final(rng)@ == old(rng)@,
        is_wall_type(old(level).cell(x as int, y as int).typ) ==> same_but_cells_traps(*old(level), *final(level))
            && final(level).cells@ == retyped(*old(level), x as int, y as int, CellType::Room)
            && final(rng)@ == step(old(rng)@)
            && final(level).traps@ == (if rn2_at(old(rng)@, 10) == 0 {
                old(level).traps@.push(new_trap(x as int, y as int, TrapType::Teleport))
            } else {
                old(level).traps@
            }),
{
    if !level.cell_type(x, y).is_wall() {
        return;
    }
    level.set_cell_type(x, y, CellType::Room);
    if rng.one_in(10) {
        level.add_trap(x as i8, y as i8, TrapType::Teleport);
    }
}

/// Cut one niche in a wall of the room chosen at random.
fn makeniche(level: &mut Level, room: &Room, rng: &mut GameRng)
    requires
        old(level).wf(),
        room.fits(),
    ensures
        ({
            let res = niche_cut(old(level).cells@, old(level).traps@, *room, old(rng)@);
            &&& same_but_cells_traps(*old(level), *final(level))
            &&& final(level).cells@ == res.0
            &&& final(level).traps@ == res.1
            &&& final(rng)@ == res.2
        }),
{
    let dir = rng.rn2(4);
    let (x, y): (usize, usize) = if dir == 0 {
        (room.x + rng.rn2(room.width as u32) as usize, room.y - 1)
    } else if dir == 1 {
        (room.x + rng.rn2(room.width as u32) as usize, room.y + room.height)
    } else if dir == 2 {
        (room.x - 1, room.y + rng.rn2(room.height as u32) as usize)
    } else {
        (room.x + room.width, room.y + rng.rn2(room.height as u32) as usize)
    };
    place_niche(level, x, y, rng);
}

/// Cut `1 + rn2((width + height) / 6)` niches in the walls of a room.
pub fn make_niches(level: &mut Level, room: &Room, rng: &mut GameRng)
    requires
        old(level).wf(),
        room.fits(),
        room.width + room.height >= 6,
    ensures
        niches_made(*old(level), *final(level), *room, old(rng)@, final(rng)@),
{
    let num_niches = 1 + rng.rn2(((room.width + room.height) / 6) as u32);
    let ghost s1 = rng@;
    let mut k: u32 = 0;
    while k < num_niches
        invariant
            room.fits(),
            k <= num_niches,
            same_but_cells_traps(*old(level), *level),
            ({
                let res = niches_cut(old(level).cells@, old(level).traps@, *room, s1, k as nat);
                level.cells@ == res.0 && level.traps@ == res.1 && rng@ == res.2
            }),
        decreases num_niches - k,
    {
        makeniche(level, room, rng);
        k = k + 1;
    }
}

/// The first wall cell that up to `tries` draws of a random cell find from
/// state `s`, with the state after the draws made.
pub open spec fn wall_search(cells: Seq<Cell>, s: u64, tries: nat) -> (Option<(int, int)>, u64)
    decreases tries,
{
    if tries == 0 {
        (None, s)
    } else {
        let x = rn2_at(s, COLNO as u32) as int;
        let y = rn2_at(step(s), ROWNO as u32) as int;
        let s2 = step(step(s));
        if is_wall_type(cells[cell_index(x, y)].typ) {
            (Some((x, y)), s2)
        } else {
            wall_search(cells, s2, (tries - 1) as nat)
        }
    }
}

/// The objects and the state after burying one mineral from state `s`: in
/// the first wall cell found within a hundred tries, gold of
/// `10 + rn2(10 * depth)` pieces when `gold`, else a gem; nothing when no
/// wall is found.
pub open spec fn buried(objects: Seq<Object>, cells: Seq<Cell>, gold: bool, depth: int, s: u64) -> (Seq<Object>, u64) {
    let f = wall_search(cells, s, 100);
    match f.0 {
        None => (objects, f.1),
        Some(p) => if gold {
            (
                objects.push(
                    Object {
                        quantity: (rn2_at(f.1, (depth * 10) as u32) + 10) as i32,
                        ..new_object_at(ObjectClass::Coin, p.0, p.1)
                    },
                ),
                step(f.1),
            )
        } else {
            (objects.push(new_object_at(ObjectClass::Gem, p.0, p.1)), f.1)
        },
    }
}

/// `k` minerals buried one after the other from state `s`.
pub open spec fn buried_many(objects: Seq<Object>, cells: Seq<Cell>, gold: bool, depth: int, s: u64, k: nat) -> (
    Seq<Object>,
    u64,
)
    decreases k,
{
    if k == 0 {
        (objects, s)
    } else {
        let p = buried_many(objects, cells, gold, depth, s, (k - 1) as nat);
        buried(p.0, cells, gold, depth, p.1)
    }
}

/// Minerals were buried: `rn2(depth / 3 + 2)` gold deposits, then
/// `rn2(depth / 5 + 1)` gems; only objects were added.
pub open spec fn minerals_buried(old: Level, new: Level, s: u64, s2: u64) -> bool {
    let depth = old.dlevel.level_num as int;
    let ng = rn2_at(s, (depth / 3 + 2) as u32);
    let nm = rn2_at(step(s), (depth / 5 + 1) as u32);
    let g = buried_many(old.objects@, old.cells@, true, depth, step(step(s)), ng as nat);
    let m = buried_many(g.0, old.cells@, false, depth, g.1, nm as nat);
    &&& new.wf()
    &&& new.dlevel == old.dlevel
    &&& new.cells@ == old.cells@
    &&& new.explored@ == old.explored@
    &&& new.traps@ == old.traps@
    &&& new.monsters@ == old.monsters@
    &&& new.stairs@ == old.stairs@
    &&& new.flags == old.flags
    &&& new.objects@ == m.0
    &&& s2 == m.1
}

/// Look up to a hundred times for a random wall cell and bury one mineral
/// (gold when `gold`, else a gem) in the first one found.
fn bury_mineral(level: &mut Level, gold: bool, depth: i32, rng: &mut GameRng)
    requires
        old(level).wf(),
        1 <= depth <= 127,
    ensures
        final(level).wf(),
        final(level).dlevel == old(level).dlevel,
        final(level).cells@ == old(level).cells@,
        final(level).explored@ == old(level).explored@,
        final(level).traps@ == old(level).traps@,
        final(level).monsters@ == old(level).monsters@,
        final(level).stairs@ == old(level).stairs@,
        final(level).flags == old(level).flags,
        ({
            let b = buried(old(level).objects@, old(level).cells@, gold, depth as int, old(rng)@);
            final(level).objects@ == b.0 && final(rng)@ == b.1
        }),
{
    let ghost s0 = rng@;
    let mut tries: u32 = 0;
    while tries < 100
        invariant
            *level == *old(level),
            old(level).wf(),
            1 <= depth <= 127,
            tries <= 100,
            s0 == old(rng)@,
            wall_search(old(level).cells@, s0, 100) == wall_search(old(level).cells@, rng@, (100 - tries) as nat),
        decreases 100 - tries,
    {
        let ghost st = rng@;
        let x = rng.rn2(COLNO as u32) as usize;
        let y = rng.rn2(ROWNO as u32) as usize;
        if level.cell_type(x, y).is_wall() {
            proof {
                assert(wall_search(old(level).cells@, st, (100 - tries) as nat) == (
                    Some((x as int, y as int)),
                    rng@,
                ));
            }
            if gold {
                let gold_amount = rng.rn2((depth * 10) as u32) as i32 + 10;
                let mut g = Object::new(ObjectId(0), 0, ObjectClass::Coin);
                g.quantity = gold_amount;
                level.add_object(g, x as i8, y as i8);
            } else {
                let gem = Object::new(ObjectId(0), 0, ObjectClass::Gem);
                level.add_object(gem, x as i8, y as i8);
            }
            assert(level.objects@ =~= buried(old(level).objects@, old(level).cells@, gold, depth as int, s0).0);
            return;
        }
        tries = tries + 1;
    }
}

/// Bury minerals in the walls of a level: `rn2(depth / 3 + 2)` gold deposits
/// and `rn2(depth / 5 + 1)` gems, each in a random wall cell found within a
/// hundred tries.
pub fn mineralize(level: &mut Level, rng: &mut GameRng)
    requires
        old(level).wf(),
        old(level).dlevel.level_num >= 1,
    ensures
        minerals_buried(*old(level), *final(level), old(rng)@, final(rng)@),
{
    let depth = level.dlevel.depth();
    let num_gold = rng.rn2((depth / 3 + 2) as u32);
    let num_gems = rng.rn2((depth / 5 + 1) as u32);
    let ghost s2 = rng@;
    let mut k: u32 = 0;
    while k < num_gold
        invariant
            1 <= depth <= 127,
            depth == old(level).dlevel.level_num,
            k <= num_gold,
            level.wf(),
            level.dlevel == old(level).dlevel,
            level.cells@ == old(level).cells@,
            level.explored@ == old(level).explored@,
            level.traps@ == old(level).traps@,
            level.monsters@ == old(level).monsters@,
            level.stairs@ == old(level).stairs@,
            level.flags == old(level).flags,
            ({
                let b = buried_many(old(level).objects@, old(level).cells@, true, depth as int, s2, k as nat);
                level.objects@ == b.0 && rng@ == b.1
            }),
        decreases num_gold - k,
    {
        bury_mineral(level, true, depth, rng);
        k = k + 1;
    }
    let ghost g = buried_many(old(level).objects@, old(level).cells@, true, depth as int, s2, num_gold as nat);
    let mut k: u32 = 0;
    while k < num_gems
        invariant
            1 <= depth <= 127,
            depth == old(level).dlevel.level_num,
            k <= num_gems,
            level.wf(),
            level.dlevel == old(level).dlevel,
            level.cells@ == old(level).cells@,
            level.explored@ == old(level).explored@,
            level.traps@ == old(level).traps@,
            level.monsters@ == old(level).monsters@,
            level.stairs@ == old(level).stairs@,
            level.flags == old(level).flags,
            ({
                let b = buried_many(g.0, old(level).cells@, false, depth as int, g.1, k as nat);
                level.objects@ == b.0 && rng@ == b.1
            }),
        decreases num_gems - k,
    {
        bury_mineral(level, false, depth, rng);
        k = k + 1;
    }
}

} // verus!
