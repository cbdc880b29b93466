//! Trap creation, triggering and effects.

use vstd::prelude::*;
use crate::rng::{GameRng, rn2_at, rnd_at, dice_at, step, steps, lemma_dice_bounds, lemma_steps_succ};
use crate::text::{views, int_str, push_text, push_string, text_int_text, text3};
use crate::dungeon::level::{Trap, TrapType, Level, COLNO, ROWNO};
use crate::player::Property;

verus! {

/// Effect of a triggered trap.
#[derive(Debug, Clone, Copy, PartialEq, Eq, Structural)]
pub enum TrapEffect {
    /// No effect (trap missed or resisted)
    Nothing,
    /// Damage dealt
    Damage(i32),
    /// Status effect applied
    Status(StatusEffect),
    /// Teleported to new location
    Teleport { x: i8, y: i8 },
    /// Level teleport
    LevelTeleport { up: bool },
    /// Fell into pit/hole
    Fall { depth: i32, damage: i32 },
    /// Trapped (bear trap, web, etc.)
    Trapped { turns: i32 },
    /// Item affected (rust, etc.)
    ItemDamage,
    /// Polymorph
    Polymorph,
    /// Magic effect (random)
    MagicEffect,
}

/// Status effects caused by traps.
#[derive(Debug, Clone, Copy, PartialEq, Eq, Structural)]
pub enum StatusEffect {
    Poisoned,
    Asleep,
    Confused,
    Blind,
    Stunned,
    Paralyzed,
    Rusted,
}

/// Trap creation context.
#[derive(Debug, Clone, Copy, PartialEq, Eq, Structural)]
pub struct TrapContext {
    /// Difficulty level for trap generation
    pub difficulty: i32,
    /// Whether traps can be deadly (holes, trapdoors)
    pub allow_holes: bool,
    /// Whether magic traps are allowed
    pub allow_magic: bool,
}

impl Default for TrapContext {
    fn default() -> (r: Self)
        ensures
            r == (TrapContext { difficulty: 1, allow_holes: true, allow_magic: true }),
    {
        TrapContext { difficulty: 1, allow_holes: true, allow_magic: true }
    }
}

/// Number of entries in the weighted table of random traps.
pub const TRAP_CHOICES: usize = 20;

/// Trap kind of entry `i` of the weighted table of random traps.
pub open spec fn trap_choice(i: int) -> TrapType {
    if i == 0 { TrapType::Arrow }
    else if i == 1 { TrapType::Dart }
    else if i == 2 { TrapType::RockFall }
    else if i == 3 { TrapType::Squeaky }
    else if i == 4 { TrapType::BearTrap }
    else if i == 5 { TrapType::Pit }
    else if i == 6 { TrapType::SpikedPit }
    else if i == 7 { TrapType::SleepingGas }
    else if i == 8 { TrapType::RustTrap }
    else if i == 9 { TrapType::FireTrap }
    else if i == 10 { TrapType::LandMine }
    else if i == 11 { TrapType::RollingBoulder }
    else if i == 12 { TrapType::Hole }
    else if i == 13 { TrapType::TrapDoor }
    else if i == 14 { TrapType::Teleport }
    else if i == 15 { TrapType::LevelTeleport }
    else if i == 16 { TrapType::Web }
    else if i == 17 { TrapType::MagicTrap }
    else if i == 18 { TrapType::AntiMagic }
    else { TrapType::Polymorph }
}

/// Weight of entry `i` of the table in context `ctx`.
pub open spec fn trap_choice_weight(i: int, ctx: TrapContext) -> int {
    let d = ctx.difficulty;
    if i == 0 { 10 }
    else if i == 1 { 10 }
    else if i == 2 { 8 }
    else if i == 3 { 5 }
    else if i == 4 { 8 }
    else if i == 5 { 10 }
    else if i == 6 { if d > 3 { 8 } else { 2 } }
    else if i == 7 { if d > 2 { 6 } else { 2 } }
    else if i == 8 { 5 }
    else if i == 9 { if d > 4 { 6 } else { 2 } }
    else if i == 10 { if d > 5 { 5 } else { 0 } }
    else if i == 11 { if d > 4 { 4 } else { 0 } }
    else if i == 12 { if ctx.allow_holes && d > 3 { 4 } else { 0 } }
    else if i == 13 { if ctx.allow_holes && d > 4 { 4 } else { 0 } }
    else if i == 14 { if ctx.allow_magic && d > 2 { 5 } else { 0 } }
    else if i == 15 { if ctx.allow_magic && d > 6 { 3 } else { 0 } }
    else if i == 16 { 6 }
    else if i == 17 { if ctx.allow_magic && d > 3 { 4 } else { 0 } }
    else if i == 18 { if ctx.allow_magic && d > 5 { 3 } else { 0 } }
    else { if ctx.allow_magic && d > 7 { 2 } else { 0 } }
}

/// Sum of the weights of the first `n` entries.
pub open spec fn trap_weight_sum(n: int, ctx: TrapContext) -> int
    decreases n,
{
    if n <= 0 { 0 } else { trap_weight_sum(n - 1, ctx) + trap_choice_weight(n - 1, ctx) }
}

/// The entry selected by `roll` when scanning the table from entry `i`:
/// the first entry whose weight exceeds what is left of the roll.
pub open spec fn trap_pick(roll: int, i: int, ctx: TrapContext) -> TrapType
    decreases TRAP_CHOICES - i,
{
    if i >= TRAP_CHOICES || i < 0 {
        TrapType::Pit
    } else if roll < trap_choice_weight(i, ctx) {
        trap_choice(i)
    } else {
        trap_pick(roll - trap_choice_weight(i, ctx), i + 1, ctx)
    }
}

proof fn lemma_weight_sum_bounds(n: int, ctx: TrapContext)
    requires
        0 <= n <= TRAP_CHOICES,
    ensures
        0 <= trap_weight_sum(n, ctx) <= 10 * n,
    decreases n,
{
    if n > 0 {
        lemma_weight_sum_bounds(n - 1, ctx);
    }
}

fn choice_type(i: usize) -> (t: TrapType)
    requires
        i < TRAP_CHOICES,
    ensures
        t == trap_choice(i as int),
{
    match i {
        0 => TrapType::Arrow,
        1 => TrapType::Dart,
        2 => TrapType::RockFall,
        3 => TrapType::Squeaky,
        4 => TrapType::BearTrap,
        5 => TrapType::Pit,
        6 => TrapType::SpikedPit,
        7 => TrapType::SleepingGas,
        8 => TrapType::RustTrap,
        9 => TrapType::FireTrap,
        10 => TrapType::LandMine,
        11 => TrapType::RollingBoulder,
        12 => TrapType::Hole,
        13 => TrapType::TrapDoor,
        14 => TrapType::Teleport,
        15 => TrapType::LevelTeleport,
        16 => TrapType::Web,
        17 => TrapType::MagicTrap,
        18 => TrapType::AntiMagic,
        _ => TrapType::Polymorph,
    }
}

fn choice_weight(i: usize, ctx: &TrapContext) -> (w: i32)
    requires
        i < TRAP_CHOICES,
    ensures
        w == trap_choice_weight(i as int, *ctx),
        0 <= w <= 10,
{
    let d = ctx.difficulty;
    match i {
        0 => 10,
        1 => 10,
        2 => 8,
        3 => 5,
        4 => 8,
        5 => 10,
        6 => if d > 3 { 8 } else { 2 },
        7 => if d > 2 { 6 } else { 2 },
        8 => 5,
        9 => if d > 4 { 6 } else { 2 },
        10 => if d > 5 { 5 } else { 0 },
        11 => if d > 4 { 4 } else { 0 },
        12 => if ctx.allow_holes && d > 3 { 4 } else { 0 },
        13 => if ctx.allow_holes && d > 4 { 4 } else { 0 },
        14 => if ctx.allow_magic && d > 2 { 5 } else { 0 },
        15 => if ctx.allow_magic && d > 6 { 3 } else { 0 },
        16 => 6,
        17 => if ctx.allow_magic && d > 3 { 4 } else { 0 },
        18 => if ctx.allow_magic && d > 5 { 3 } else { 0 },
        _ => if ctx.allow_magic && d > 7 { 2 } else { 0 },
    }
}

/// Create a random trap type based on difficulty: a weighted draw over the
/// table of trap kinds, whose weights depend on the context.
pub fn random_trap_type(rng: &mut GameRng, ctx: &TrapContext) -> (t: TrapType)
    ensures
        trap_weight_sum(TRAP_CHOICES as int, *ctx) == 0 ==> t == TrapType::Pit
            && final(rng)@ == old(rng)@,
        trap_weight_sum(TRAP_CHOICES as int, *ctx) > 0 ==> t == trap_pick(
            rn2_at(old(rng)@, trap_weight_sum(TRAP_CHOICES as int, *ctx) as u32) as int, 0, *ctx)
            && final(rng)@ == step(old(rng)@),
{
    let mut total: i32 = 0;
    let mut i: usize = 0;
    while i < TRAP_CHOICES
        invariant
            i <= TRAP_CHOICES,
            total == trap_weight_sum(i as int, *ctx),
            0 <= total <= 10 * i,
        decreases TRAP_CHOICES - i,
    {
        let w = choice_weight(i, ctx);
        total = total + w;
        i = i + 1;
    }
    if total == 0 {
        return TrapType::Pit;
    }
    let mut roll = rng.rn2(total as u32) as i32;
    let ghost roll0 = roll as int;
    let mut j: usize = 0;
    while j < TRAP_CHOICES
        invariant
            j <= TRAP_CHOICES,
            0 <= roll <= 200,
            trap_pick(roll0, 0, *ctx) == trap_pick(roll as int, j as int, *ctx),
            total == trap_weight_sum(TRAP_CHOICES as int, *ctx),
            total > 0,
            rng@ == step(old(rng)@),
            roll0 == rn2_at(old(rng)@, total as u32),
        decreases TRAP_CHOICES - j,
    {
        let w = choice_weight(j, ctx);
        if roll < w {
            return choice_type(j);
        }
        roll = roll - w;
        j = j + 1;
    }
    TrapType::Pit
}

/// Create a new trap at the given location.
pub fn create_trap(x: i8, y: i8, trap_type: TrapType) -> (t: Trap)
    ensures
        t == (Trap { x: x, y: y, trap_type: trap_type, activated: false, seen: false,
            once: trap_type == TrapType::LandMine, madeby_u: false, launch_oid: None }),
{
    let once = matches!(trap_type, TrapType::LandMine);
    Trap { x, y, trap_type, activated: false, seen: false, once, madeby_u: false, launch_oid: None }
}

/// Create a random trap at the given location.
pub fn create_random_trap(rng: &mut GameRng, x: i8, y: i8, ctx: &TrapContext) -> (t: Trap)
    ensures
        t.x == x && t.y == y,
        !t.activated && !t.seen && !t.madeby_u && t.launch_oid is None,
        t.once == (t.trap_type == TrapType::LandMine),
        trap_weight_sum(TRAP_CHOICES as int, *ctx) == 0 ==> t.trap_type == TrapType::Pit
            && final(rng)@ == old(rng)@,
        trap_weight_sum(TRAP_CHOICES as int, *ctx) > 0 ==> t.trap_type == trap_pick(
            rn2_at(old(rng)@, trap_weight_sum(TRAP_CHOICES as int, *ctx) as u32) as int, 0, *ctx)
            && final(rng)@ == step(old(rng)@),
{
    let trap_type = random_trap_type(rng, ctx);
    create_trap(x, y, trap_type)
}

/// Dice of direct damage of a trap kind: (number of dice, sides).
pub open spec fn base_damage(t: TrapType) -> (int, int) {
    match t {
        TrapType::Arrow => (1, 6),
        TrapType::Dart => (1, 4),
        TrapType::RockFall => (2, 6),
        TrapType::BearTrap => (2, 4),
        TrapType::LandMine => (4, 6),
        TrapType::RollingBoulder => (3, 6),
        TrapType::FireTrap => (2, 6),
        TrapType::Pit => (2, 6),
        TrapType::SpikedPit => (3, 6),
        TrapType::Hole => (1, 1),
        TrapType::TrapDoor => (1, 1),
        _ => (0, 0),
    }
}

/// Get base damage for a trap type.
pub fn trap_base_damage(trap_type: TrapType) -> (r: (i32, i32))
    ensures
        r.0 == base_damage(trap_type).0,
        r.1 == base_damage(trap_type).1,
{
    match trap_type {
        TrapType::Arrow => (1, 6),
        TrapType::Dart => (1, 4),
        TrapType::RockFall => (2, 6),
        TrapType::BearTrap => (2, 4),
        TrapType::LandMine => (4, 6),
        TrapType::RollingBoulder => (3, 6),
        TrapType::FireTrap => (2, 6),
        TrapType::Pit => (2, 6),
        TrapType::SpikedPit => (3, 6),
        TrapType::Hole => (1, 1),
        TrapType::TrapDoor => (1, 1),
        _ => (0, 0),
    }
}

/// Number of draws a damage roll for trap kind `t` makes.
pub open spec fn damage_draws(t: TrapType) -> nat {
    if base_damage(t).0 == 0 || base_damage(t).1 == 0 { 0 } else { base_damage(t).0 as nat }
}

/// The damage rolled for trap kind `t` from state `s`.
pub open spec fn damage_roll(s: u64, t: TrapType) -> int {
    if base_damage(t).0 == 0 || base_damage(t).1 == 0 {
        0
    } else {
        dice_at(s, base_damage(t).0 as nat, base_damage(t).1 as u32)
    }
}

/// Roll damage for a trap: the sum of its damage dice, 0 when it deals none.
pub fn roll_trap_damage(rng: &mut GameRng, trap_type: TrapType) -> (d: i32)
    ensures
        d == damage_roll(old(rng)@, trap_type),
        final(rng)@ == steps(old(rng)@, damage_draws(trap_type)),
        damage_draws(trap_type) > 0 ==> base_damage(trap_type).0 <= d
            <= base_damage(trap_type).0 * base_damage(trap_type).1,
        damage_draws(trap_type) == 0 ==> d == 0,
{
    let (dice, sides) = trap_base_damage(trap_type);
    if dice == 0 || sides == 0 {
        return 0;
    }
    let ghost s0 = rng@;
    let mut total: i32 = 0;
    let mut i: i32 = 0;
    while i < dice
        invariant
            1 <= dice <= 4,
            1 <= sides <= 6,
            0 <= i <= dice,
            rng@ == steps(s0, i as nat),
            total + dice_at(rng@, (dice - i) as nat, sides as u32) == dice_at(s0, dice as nat, sides as u32),
            0 <= total <= 6 * i,
        decreases dice - i,
    {
        proof {
            lemma_steps_succ(s0, i as nat);
        }
        let r = rng.rnd(sides as u32);
        total = total + r as i32;
        i = i + 1;
    }
    proof {
        lemma_dice_bounds(s0, dice as nat, sides as u32);
    }
    total
}

/// Whether a trap kind can hold a creature.
pub open spec fn holds_creature(t: TrapType) -> bool {
    matches!(t, TrapType::BearTrap | TrapType::Pit | TrapType::SpikedPit | TrapType::Web)
}

/// Check if a trap type can hold a creature.
pub fn is_holding_trap(trap_type: TrapType) -> (r: bool)
    ensures
        r == holds_creature(trap_type),
{
    matches!(trap_type, TrapType::BearTrap | TrapType::Pit | TrapType::SpikedPit | TrapType::Web)
}

/// Check if a trap type is a pit.
pub fn is_pit(trap_type: TrapType) -> (r: bool)
    ensures
        r == (trap_type == TrapType::Pit || trap_type == TrapType::SpikedPit),
{
    matches!(trap_type, TrapType::Pit | TrapType::SpikedPit)
}

/// Check if a trap type is a hole (leads to a lower level).
pub fn is_hole(trap_type: TrapType) -> (r: bool)
    ensures
        r == (trap_type == TrapType::Hole || trap_type == TrapType::TrapDoor),
{
    matches!(trap_type, TrapType::Hole | TrapType::TrapDoor)
}

/// Whether a trap kind is magical.
pub open spec fn magical(t: TrapType) -> bool {
    matches!(t, TrapType::Teleport | TrapType::LevelTeleport | TrapType::MagicPortal
        | TrapType::MagicTrap | TrapType::AntiMagic | TrapType::Polymorph)
}

/// Check if a trap type is magical.
pub fn is_magic_trap(trap_type: TrapType) -> (r: bool)
    ensures
        r == magical(trap_type),
{
    matches!(trap_type, TrapType::Teleport | TrapType::LevelTeleport | TrapType::MagicPortal
        | TrapType::MagicTrap | TrapType::AntiMagic | TrapType::Polymorph)
}

/// Whether a trap kind can be disarmed.
pub open spec fn disarmable(t: TrapType) -> bool {
    !matches!(t, TrapType::MagicPortal | TrapType::Statue | TrapType::Hole | TrapType::TrapDoor)
}

/// Check if a trap can be disarmed.
pub fn can_disarm(trap_type: TrapType) -> (r: bool)
    ensures
        r == disarmable(trap_type),
{
    !matches!(trap_type, TrapType::MagicPortal | TrapType::Statue | TrapType::Hole | TrapType::TrapDoor)
}

/// Difficulty of disarming a trap kind (higher is harder).
pub open spec fn disarm_level(t: TrapType) -> int {
    match t {
        TrapType::Squeaky => 5,
        TrapType::Arrow | TrapType::Dart => 10,
        TrapType::BearTrap => 15,
        TrapType::Pit | TrapType::SpikedPit => 10,
        TrapType::Web => 5,
        TrapType::RockFall => 20,
        TrapType::LandMine => 25,
        TrapType::RollingBoulder => 20,
        TrapType::SleepingGas => 15,
        TrapType::RustTrap => 15,
        TrapType::FireTrap => 20,
        TrapType::Teleport => 20,
        TrapType::LevelTeleport => 25,
        TrapType::MagicTrap => 25,
        TrapType::AntiMagic => 20,
        TrapType::Polymorph => 25,
        _ => 30,
    }
}

/// Get the difficulty to disarm a trap (higher = harder).
pub fn disarm_difficulty(trap_type: TrapType) -> (r: i32)
    ensures
        r == disarm_level(trap_type),
{
    match trap_type {
        TrapType::Squeaky => 5,
        TrapType::Arrow | TrapType::Dart => 10,
        TrapType::BearTrap => 15,
        TrapType::Pit | TrapType::SpikedPit => 10,
        TrapType::Web => 5,
        TrapType::RockFall => 20,
        TrapType::LandMine => 25,
        TrapType::RollingBoulder => 20,
        TrapType::SleepingGas => 15,
        TrapType::RustTrap => 15,
        TrapType::FireTrap => 20,
        TrapType::Teleport => 20,
        TrapType::LevelTeleport => 25,
        TrapType::MagicTrap => 25,
        TrapType::AntiMagic => 20,
        TrapType::Polymorph => 25,
        _ => 30,
    }
}

/// Get the display character for a trap: floor when unseen, otherwise `\`
/// for a magic portal, `"` for a web, `` ` `` for a statue and `^` for all others.
pub fn trap_glyph(trap_type: TrapType, seen: bool) -> (c: char)
    ensures
        !seen ==> c == '.',
        seen ==> c == match trap_type {
            TrapType::MagicPortal => '\\',
            TrapType::Web => '"',
            TrapType::Statue => '`',
            _ => '^',
        },
{
    if !seen {
        return '.';
    }
    match trap_type {
        TrapType::Arrow => '^',
        TrapType::Dart => '^',
        TrapType::RockFall => '^',
        TrapType::Squeaky => '^',
        TrapType::BearTrap => '^',
        TrapType::LandMine => '^',
        TrapType::RollingBoulder => '^',
        TrapType::SleepingGas => '^',
        TrapType::RustTrap => '^',
        TrapType::FireTrap => '^',
        TrapType::Pit => '^',
        TrapType::SpikedPit => '^',
        TrapType::Hole => '^',
        TrapType::TrapDoor => '^',
        TrapType::Teleport => '^',
        TrapType::LevelTeleport => '^',
        TrapType::MagicPortal => '\\',
        TrapType::Web => '"',
        TrapType::Statue => '`',
        TrapType::MagicTrap => '^',
        TrapType::AntiMagic => '^',
        TrapType::Polymorph => '^',
    }
}

/// The name of a trap kind.
pub open spec fn trap_name_of(t: TrapType) -> Seq<char> {
    match t {
        TrapType::Arrow => "arrow trap"@,
        TrapType::Dart => "dart trap"@,
        TrapType::RockFall => "falling rock trap"@,
        TrapType::Squeaky => "squeaky board"@,
        TrapType::BearTrap => "bear trap"@,
        TrapType::LandMine => "land mine"@,
        TrapType::RollingBoulder => "rolling boulder trap"@,
        TrapType::SleepingGas => "sleeping gas trap"@,
        TrapType::RustTrap => "rust trap"@,
        TrapType::FireTrap => "fire trap"@,
        TrapType::Pit => "pit"@,
        TrapType::SpikedPit => "spiked pit"@,
        TrapType::Hole => "hole"@,
        TrapType::TrapDoor => "trap door"@,
        TrapType::Teleport => "teleportation trap"@,
        TrapType::LevelTeleport => "level teleporter"@,
        TrapType::MagicPortal => "magic portal"@,
        TrapType::Web => "web"@,
        TrapType::Statue => "statue trap"@,
        TrapType::MagicTrap => "magic trap"@,
        TrapType::AntiMagic => "anti-magic field"@,
        TrapType::Polymorph => "polymorph trap"@,
    }
}

/// Get the name of a trap type.
pub fn trap_name(trap_type: TrapType) -> (s: &'static str)
    ensures
        s@ == trap_name_of(trap_type),
{
    match trap_type {
        TrapType::Arrow => "arrow trap",
        TrapType::Dart => "dart trap",
        TrapType::RockFall => "falling rock trap",
        TrapType::Squeaky => "squeaky board",
        TrapType::BearTrap => "bear trap",
        TrapType::LandMine => "land mine",
        TrapType::RollingBoulder => "rolling boulder trap",
        TrapType::SleepingGas => "sleeping gas trap",
        TrapType::RustTrap => "rust trap",
        TrapType::FireTrap => "fire trap",
        TrapType::Pit => "pit",
        TrapType::SpikedPit => "spiked pit",
        TrapType::Hole => "hole",
        TrapType::TrapDoor => "trap door",
        TrapType::Teleport => "teleportation trap",
        TrapType::LevelTeleport => "level teleporter",
        TrapType::MagicPortal => "magic portal",
        TrapType::Web => "web",
        TrapType::Statue => "statue trap",
        TrapType::MagicTrap => "magic trap",
        TrapType::AntiMagic => "anti-magic field",
        TrapType::Polymorph => "polymorph trap",
    }
}

/// The effect of triggering a trap of kind `t` from generator state `s`,
/// together with the generator state afterwards.
pub open spec fn trigger_outcome(t: TrapType, s: u64) -> (TrapEffect, u64) {
    let d = damage_roll(s, t);
    let s1 = steps(s, damage_draws(t));
    match t {
        TrapType::Arrow => (TrapEffect::Damage(d as i32), s1),
        TrapType::Dart => if rn2_at(s1, 2) == 0 {
            (TrapEffect::Status(StatusEffect::Poisoned), step(s1))
        } else {
            (TrapEffect::Damage(d as i32), step(s1))
        },
        TrapType::RockFall | TrapType::RollingBoulder | TrapType::LandMine | TrapType::FireTrap =>
            (TrapEffect::Damage(d as i32), s1),
        TrapType::BearTrap => if d > 0 {
            (TrapEffect::Trapped { turns: (rnd_at(s1, 5) + 3) as i32 }, step(s1))
        } else {
            (TrapEffect::Damage(d as i32), s1)
        },
        TrapType::SleepingGas => (TrapEffect::Status(StatusEffect::Asleep), s),
        TrapType::RustTrap => (TrapEffect::ItemDamage, s),
        TrapType::Pit | TrapType::SpikedPit => (TrapEffect::Fall { depth: 1, damage: d as i32 }, s1),
        TrapType::Hole | TrapType::TrapDoor => (TrapEffect::Fall { depth: 1, damage: (rnd_at(s, 5) + 1) as i32 }, step(s)),
        TrapType::Teleport => (TrapEffect::Teleport {
            x: (rn2_at(s, 77) + 1) as i8, y: (rn2_at(step(s), 19) + 1) as i8 }, step(step(s))),
        TrapType::LevelTeleport => (TrapEffect::LevelTeleport { up: rn2_at(s, 2) == 0 }, step(s)),
        TrapType::Web => (TrapEffect::Trapped { turns: (rnd_at(s, 10) + 5) as i32 }, step(s)),
        TrapType::MagicTrap => (TrapEffect::MagicEffect, s),
        TrapType::Polymorph => (TrapEffect::Polymorph, s),
        _ => (TrapEffect::Nothing, s),
    }
}

/// Trigger a trap and return its effect; the trap becomes activated and seen.
pub fn trigger_trap(rng: &mut GameRng, trap: &mut Trap) -> (e: TrapEffect)
    ensures
        *final(trap) == (Trap { activated: true, seen: true, ..*old(trap) }),
        (e, final(rng)@) == trigger_outcome(old(trap).trap_type, old(rng)@),
{
    trap.activated = true;
    trap.seen = true;
    match trap.trap_type {
        TrapType::Arrow | TrapType::Dart => {
            let damage = roll_trap_damage(rng, trap.trap_type);
            if matches!(trap.trap_type, TrapType::Dart) {
                if rng.one_in(2) {
                    TrapEffect::Status(StatusEffect::Poisoned)
                } else {
                    TrapEffect::Damage(damage)
                }
            } else {
                TrapEffect::Damage(damage)
            }
        },
        TrapType::RockFall | TrapType::RollingBoulder => {
            let damage = roll_trap_damage(rng, trap.trap_type);
            TrapEffect::Damage(damage)
        },
        TrapType::Squeaky => TrapEffect::Nothing,
        TrapType::BearTrap => {
            let damage = roll_trap_damage(rng, trap.trap_type);
            if damage > 0 {
                TrapEffect::Trapped { turns: (rng.rnd(5) + 3) as i32 }
            } else {
                TrapEffect::Damage(damage)
            }
        },
        TrapType::LandMine => {
            let damage = roll_trap_damage(rng, trap.trap_type);
            TrapEffect::Damage(damage)
        },
        TrapType::SleepingGas => TrapEffect::Status(StatusEffect::Asleep),
        TrapType::RustTrap => TrapEffect::ItemDamage,
        TrapType::FireTrap => {
            let damage = roll_trap_damage(rng, trap.trap_type);
            TrapEffect::Damage(damage)
        },
        TrapType::Pit | TrapType::SpikedPit => {
            let damage = roll_trap_damage(rng, trap.trap_type);
            TrapEffect::Fall { depth: 1, damage }
        },
        TrapType::Hole | TrapType::TrapDoor => TrapEffect::Fall {
            depth: 1,
            damage: rng.rnd(5) as i32 + 1,
        },
        TrapType::Teleport => {
            let x = (rng.rn2(77) + 1) as i8;
            let y = (rng.rn2(19) + 1) as i8;
            TrapEffect::Teleport { x, y }
        },
        TrapType::LevelTeleport => TrapEffect::LevelTeleport { up: rng.one_in(2) },
        TrapType::MagicPortal => TrapEffect::Nothing,
        TrapType::Web => TrapEffect::Trapped { turns: (rng.rnd(10) + 5) as i32 },
        TrapType::Statue => TrapEffect::Nothing,
        TrapType::MagicTrap => TrapEffect::MagicEffect,
        TrapType::AntiMagic => TrapEffect::Nothing,
        TrapType::Polymorph => TrapEffect::Polymorph,
    }
}

/// Base percentage of spotting a trap kind.
pub open spec fn detect_base(t: TrapType) -> int {
    match t {
        TrapType::Squeaky => 50,
        TrapType::Web => 60,
        TrapType::Pit | TrapType::SpikedPit => 40,
        TrapType::BearTrap => 30,
        TrapType::Arrow | TrapType::Dart => 25,
        TrapType::MagicPortal => 80,
        _ => 20,
    }
}

/// Check if the player spots a trap: a percentage roll against the trap's
/// base chance plus five points per level of search skill.
pub fn can_detect_trap(rng: &mut GameRng, search_skill: i32, trap_type: TrapType) -> (r: bool)
    requires
        -100_000 <= search_skill <= 100_000,
    ensures
        r == (rn2_at(old(rng)@, 100) < detect_base(trap_type) + search_skill * 5),
        final(rng)@ == step(old(rng)@),
{
    let base_chance: i32 = match trap_type {
        TrapType::Squeaky => 50,
        TrapType::Web => 60,
        TrapType::Pit | TrapType::SpikedPit => 40,
        TrapType::BearTrap => 30,
        TrapType::Arrow | TrapType::Dart => 25,
        TrapType::MagicPortal => 80,
        _ => 20,
    };
    let chance = base_chance + search_skill * 5;
    (rng.rn2(100) as i32) < chance
}

/// Clamp `v` into `lo..=hi`.
pub open spec fn clamp(v: int, lo: int, hi: int) -> int {
    if v < lo { lo } else if v > hi { hi } else { v }
}

/// Attempt to disarm a trap: impossible for undisarmable kinds; otherwise a
/// percentage roll against `50 + 3*(dex-10) + 5*skill - difficulty`, kept in 5..=95.
pub fn try_disarm(rng: &mut GameRng, trap: &Trap, dex: i32, skill: i32) -> (r: bool)
    requires
        -100_000 <= dex <= 100_000,
        -100_000 <= skill <= 100_000,
    ensures
        !disarmable(trap.trap_type) ==> !r && final(rng)@ == old(rng)@,
        disarmable(trap.trap_type) ==> r == (rn2_at(old(rng)@, 100) < clamp(
            50 + (dex - 10) * 3 + skill * 5 - disarm_level(trap.trap_type), 5, 95))
            && final(rng)@ == step(old(rng)@),
{
    if !can_disarm(trap.trap_type) {
        return false;
    }
    let difficulty = disarm_difficulty(trap.trap_type);
    let chance = 50 + (dex - 10) * 3 + skill * 5 - difficulty;
    let roll = rng.rn2(100) as i32;
    let lo = if chance > 5 { chance } else { 5 };
    let bounded = if lo < 95 { lo } else { 95 };
    roll < bounded
}

// ============================================================================
// Full trap triggering effects (dotrap)
// ============================================================================

/// Player properties that affect trap interaction.
#[derive(Debug, Clone, Copy, PartialEq, Eq, Structural)]
pub struct TrapResistances {
    /// Player is flying (avoids ground traps)
    pub flying: bool,
    /// Player is levitating (avoids ground traps)
    pub levitating: bool,
    /// Player has fire resistance
    pub fire_resistant: bool,
    /// Player has poison resistance
    pub poison_resistant: bool,
    /// Player has sleep resistance
    pub sleep_resistant: bool,
    /// Player has teleport control
    pub teleport_control: bool,
    /// Player has magic resistance
    pub magic_resistant: bool,
    /// Player is phasing through walls
    pub phasing: bool,
    /// Player's dexterity (affects dodging)
    pub dexterity: i8,
}

impl Default for TrapResistances {
    fn default() -> (r: Self)
        ensures
            r == (TrapResistances { flying: false, levitating: false, fire_resistant: false,
                poison_resistant: false, sleep_resistant: false, teleport_control: false,
                magic_resistant: false, phasing: false, dexterity: 10 }),
    {
        TrapResistances {
            flying: false,
            levitating: false,
            fire_resistant: false,
            poison_resistant: false,
            sleep_resistant: false,
            teleport_control: false,
            magic_resistant: false,
            phasing: false,
            dexterity: 10,
        }
    }
}

/// Result of stepping into a trap.
#[derive(Debug, Clone)]
pub struct DotrapResult {
    /// Messages to display
    pub messages: Vec<String>,
    /// Damage dealt (if any)
    pub damage: i32,
    /// Status effect to apply (if any)
    pub status: Option<StatusEffect>,
    /// Turns player is held in trap (0 = not held)
    pub held_turns: i32,
    /// Teleport destination (if teleported)
    pub teleport: Option<(i8, i8)>,
    /// Whether player fell to a lower level
    pub fell_through: bool,
    /// Whether trap was identified
    pub identified: bool,
    /// Whether trap should be removed after triggering
    pub trap_destroyed: bool,
}

impl Default for DotrapResult {
    fn default() -> (r: Self)
        ensures
            r.messages@.len() == 0,
            r.damage == 0,
            r.status is None,
            r.held_turns == 0,
            r.teleport is None,
            !r.fell_through,
            r.identified,
            !r.trap_destroyed,
    {
        DotrapResult {
            messages: Vec::new(),
            damage: 0,
            status: None,
            held_turns: 0,
            teleport: None,
            fell_through: false,
            identified: true,
            trap_destroyed: false,
        }
    }
}

/// What stepping into a trap yields, as mathematical values.
pub struct DotrapOutcome {
    pub messages: Seq<Seq<char>>,
    pub damage: int,
    pub status: Option<StatusEffect>,
    pub held_turns: int,
    pub teleport: Option<(i8, i8)>,
    pub fell_through: bool,
    pub trap_destroyed: bool,
    /// Generator state afterwards.
    pub state: u64,
}

/// An outcome with only messages and the generator state set.
pub open spec fn quiet(messages: Seq<Seq<char>>, state: u64) -> DotrapOutcome {
    DotrapOutcome { messages, damage: 0, status: None, held_turns: 0, teleport: None,
        fell_through: false, trap_destroyed: false, state }
}

/// "fly" when flying, else "float".
pub open spec fn fly_word(r: TrapResistances) -> Seq<char> {
    if r.flying { "fly"@ } else { "float"@ }
}

/// The outcome of the trap of kind `t` being set off from generator state `s`.
#[verifier::opaque]
pub open spec fn dotrap_outcome(t: TrapType, s: u64, r: TrapResistances, already: bool) -> DotrapOutcome {
    if (r.flying || r.levitating) && ground_trap(t) && !already {
        quiet(seq!["You "@ + fly_word(r) + " over "@ + trap_name_of(t) + "."@], s)
    } else {
        let d = damage_roll(s, t);
        let s1 = steps(s, damage_draws(t));
        match t {
            TrapType::Arrow => {
                if rn2_at(s1, 20) < (r.dexterity as u32) / 3 {
                    quiet(seq!["An arrow shoots out at you!"@, "You dodge the arrow."@], step(s1))
                } else {
                    DotrapOutcome { damage: d,
                        ..quiet(seq!["An arrow shoots out at you!"@, "It hits you!"@], step(s1)) }
                }
            },
            TrapType::Dart => {
                let s2 = step(s1);
                if rn2_at(s1, 20) < (r.dexterity as u32) / 3 {
                    quiet(seq!["A little dart shoots out at you!"@, "You dodge the dart."@], s2)
                } else if rn2_at(s2, 3) == 0 {
                    if r.poison_resistant {
                        DotrapOutcome { damage: d, ..quiet(seq!["A little dart shoots out at you!"@,
                            "It hits you!"@, "The dart was poisoned, but you resist!"@], step(s2)) }
                    } else {
                        DotrapOutcome { damage: d, status: Some(StatusEffect::Poisoned),
                            ..quiet(seq!["A little dart shoots out at you!"@, "It hits you!"@,
                            "The dart was poisoned!"@], step(s2)) }
                    }
                } else {
                    DotrapOutcome { damage: d, ..quiet(seq!["A little dart shoots out at you!"@,
                        "It hits you!"@], step(s2)) }
                }
            },
            TrapType::RockFall => DotrapOutcome { damage: d, ..quiet(seq!["A rock falls on your head!"@,
                "WHANG! You suffer "@ + int_str(d) + " damage."@], s1) },
            TrapType::Squeaky => quiet(seq!["A board beneath you squeaks loudly."@], s),
            TrapType::BearTrap => {
                if r.levitating {
                    quiet(seq!["You float over a bear trap."@], s)
                } else {
                    let held = rnd_at(s1, 5) + 3;
                    DotrapOutcome { damage: d, held_turns: held,
                        ..quiet(seq!["SNAP! A bear trap closes on your foot!"@,
                        "You are caught! (for "@ + int_str(held) + " turns)"@], step(s1)) }
                }
            },
            TrapType::LandMine => DotrapOutcome { damage: d, trap_destroyed: true,
                ..quiet(seq!["KAABLAMM!!! You step on a land mine!"@,
                "The explosion deals "@ + int_str(d) + " damage!"@], s1) },
            TrapType::RollingBoulder => {
                if rn2_at(s, 4) == 0 {
                    quiet(seq!["Click! You trigger a rolling boulder trap!"@,
                        "Fortunately, the boulder misses you."@], step(s))
                } else {
                    let d2 = damage_roll(step(s), t);
                    DotrapOutcome { damage: d2, ..quiet(seq!["Click! You trigger a rolling boulder trap!"@,
                        "You are hit by a boulder for "@ + int_str(d2) + " damage!"@],
                        steps(step(s), damage_draws(t))) }
                }
            },
            TrapType::SleepingGas => {
                if r.sleep_resistant {
                    quiet(seq!["A cloud of gas billows up around you!"@, "You don't feel sleepy."@], s)
                } else {
                    DotrapOutcome { status: Some(StatusEffect::Asleep), held_turns: rnd_at(s, 25) + 10,
                        ..quiet(seq!["A cloud of gas billows up around you!"@, "You fall asleep!"@], step(s)) }
                }
            },
            TrapType::RustTrap => DotrapOutcome { status: Some(StatusEffect::Rusted),
                ..quiet(seq!["A gush of water hits you!"@], s) },
            TrapType::FireTrap => {
                if r.fire_resistant {
                    DotrapOutcome { damage: d / 2, ..quiet(seq!["A tower of flame erupts around you!"@,
                        "But you resist the fire!"@], s1) }
                } else {
                    DotrapOutcome { damage: d, ..quiet(seq!["A tower of flame erupts around you!"@,
                        "You are scorched for "@ + int_str(d) + " damage!"@], s1) }
                }
            },
            TrapType::Pit => {
                if already {
                    quiet(seq!["You are still in the pit."@], s)
                } else {
                    DotrapOutcome { damage: d, held_turns: rnd_at(s1, 6) + 2,
                        ..quiet(seq!["You fall into a pit!"@], step(s1)) }
                }
            },
            TrapType::SpikedPit => {
                if already {
                    quiet(seq!["You are still in the spiked pit."@], s)
                } else {
                    let held = rnd_at(s1, 8) + 3;
                    let s2 = step(s1);
                    if !r.poison_resistant && rn2_at(s2, 6) == 0 {
                        DotrapOutcome { damage: d, held_turns: held, status: Some(StatusEffect::Poisoned),
                            ..quiet(seq!["You fall into a pit of spikes!"@,
                            "Some of the spikes were poisoned!"@], step(s2)) }
                    } else {
                        DotrapOutcome { damage: d, held_turns: held,
                            ..quiet(seq!["You fall into a pit of spikes!"@],
                            if r.poison_resistant { s2 } else { step(s2) }) }
                    }
                }
            },
            TrapType::Hole | TrapType::TrapDoor => {
                let name = if t == TrapType::Hole { "hole"@ } else { "trap door"@ };
                if r.flying || r.levitating {
                    quiet(seq!["You "@ + fly_word(r) + " over a "@ + name + "."@], s)
                } else {
                    DotrapOutcome { fell_through: true, damage: rnd_at(s, 6) + 1,
                        ..quiet(seq!["You fall through a "@ + name + "!"@], step(s)) }
                }
            },
            TrapType::Teleport => {
                let dest = Some(((rn2_at(s, 77) + 1) as i8, (rn2_at(step(s), 19) + 1) as i8));
                if r.teleport_control {
                    DotrapOutcome { teleport: dest, ..quiet(seq!["You are suddenly teleported!"@,
                        "You have control over where you land."@], step(step(s))) }
                } else {
                    DotrapOutcome { teleport: dest, ..quiet(seq!["You are suddenly teleported!"@],
                        step(step(s))) }
                }
            },
            TrapType::LevelTeleport => {
                if r.magic_resistant {
                    quiet(seq!["You shudder for a moment, but resist the magic."@], s)
                } else if r.teleport_control {
                    DotrapOutcome { fell_through: true, ..quiet(seq!["You are teleported to another level!"@,
                        "You have some control over where you land."@], s) }
                } else {
                    DotrapOutcome { fell_through: true, ..quiet(seq!["You are teleported to another level!"@], s) }
                }
            },
            TrapType::MagicPortal => DotrapOutcome { fell_through: true,
                ..quiet(seq!["You feel a strange sensation..."@], s) },
            TrapType::Web => {
                if r.phasing {
                    quiet(seq!["You pass right through the web."@], s)
                } else {
                    let held = rnd_at(s, 10) + 5;
                    DotrapOutcome { held_turns: held, ..quiet(seq!["You stumble into a spider web!"@,
                        "You are stuck! (for "@ + int_str(held) + " turns)"@], step(s)) }
                }
            },
            TrapType::Statue => quiet(seq!["The statue comes to life!"@], s),
            TrapType::MagicTrap => {
                let e = rn2_at(s, 10);
                let m0 = "You are enveloped in a magical light!"@;
                if e <= 2 {
                    DotrapOutcome { status: Some(StatusEffect::Confused),
                        ..quiet(seq![m0, "You feel disoriented."@], step(s)) }
                } else if e <= 4 {
                    if r.fire_resistant {
                        quiet(seq![m0, "A tower of flame erupts!"@], step(s))
                    } else {
                        DotrapOutcome { damage: dice_at(step(s), 4, 4),
                            ..quiet(seq![m0, "A tower of flame erupts!"@], steps(step(s), 4)) }
                    }
                } else if e <= 6 {
                    quiet(seq![m0, "You feel drained."@], step(s))
                } else if e == 7 {
                    quiet(seq![m0, "You feel lucky!"@], step(s))
                } else if e == 8 {
                    quiet(seq![m0, "You feel unlucky."@], step(s))
                } else {
                    quiet(seq![m0, "Nothing happens."@], step(s))
                }
            },
            TrapType::AntiMagic => quiet(seq!["You feel your magical energy draining away!"@], s),
            TrapType::Polymorph => {
                if r.magic_resistant {
                    quiet(seq!["You feel momentarily different, but resist."@], s)
                } else {
                    quiet(seq!["You feel a change coming over you..."@], s)
                }
            },
        }
    }
}

/// `r` and the generator state `st` are the outcome `o`.
pub open spec fn dotrap_result_is(r: DotrapResult, st: u64, o: DotrapOutcome) -> bool {
    &&& views(r.messages@) =~= o.messages
    &&& r.damage == o.damage
    &&& r.status == o.status
    &&& r.held_turns == o.held_turns
    &&& r.teleport == o.teleport
    &&& r.fell_through == o.fell_through
    &&& r.identified
    &&& r.trap_destroyed == o.trap_destroyed
    &&& st == o.state
}

/// Process a trap being triggered by the player.
///
/// Flying or levitating creatures pass over ground traps they are not already
/// caught in; otherwise each trap kind deals its damage, status, holding time,
/// teleport or fall, with the messages that describe it. The trap becomes
/// seen and activated in every case.
pub fn dotrap(
    rng: &mut GameRng,
    trap: &mut Trap,
    resistances: &TrapResistances,
    already_trapped: bool,
) -> (result: DotrapResult)
    ensures
        *final(trap) == (Trap { activated: true, seen: true, ..*old(trap) }),
        dotrap_result_is(result, final(rng)@,
            dotrap_outcome(old(trap).trap_type, old(rng)@, *resistances, already_trapped)),
{
    let tt = trap.trap_type;
    trap.seen = true;
    trap.activated = true;
    if (resistances.flying || resistances.levitating) && is_ground_trap(tt) && !already_trapped {
        let mut result = DotrapResult::default();
        let name = trap_name(tt);
        let verb = if resistances.flying { "fly" } else { "float" };
        let mut m = text3("You ", verb, " over ");
        m.append(name);
        m.append(".");
        push_string(&mut result.messages, m);
        proof {
            reveal(dotrap_outcome);
            assert(views(result.messages@) =~= seq!["You "@ + fly_word(*resistances) + " over "@
                + trap_name_of(tt) + "."@]);
        }
        return result;
    }
    match tt {
        TrapType::Arrow | TrapType::Dart => dotrap_missile(rng, tt, resistances, already_trapped),
        TrapType::RockFall | TrapType::LandMine | TrapType::RollingBoulder | TrapType::FireTrap =>
            dotrap_blast(rng, tt, resistances, already_trapped),
        TrapType::BearTrap | TrapType::Pit | TrapType::SpikedPit | TrapType::Web | TrapType::SleepingGas =>
            dotrap_holding(rng, tt, resistances, already_trapped),
        TrapType::Hole | TrapType::TrapDoor | TrapType::Teleport | TrapType::LevelTeleport
        | TrapType::MagicPortal => dotrap_transport(rng, tt, resistances, already_trapped),
        _ => dotrap_other(rng, tt, resistances, already_trapped),
    }
}

/// The trap is not passed over by a flying or levitating hero.
pub open spec fn sets_off(t: TrapType, r: TrapResistances, already: bool) -> bool {
    !((r.flying || r.levitating) && ground_trap(t) && !already)
}

fn dotrap_missile(rng: &mut GameRng, tt: TrapType, resistances: &TrapResistances, already_trapped: bool) -> (result: DotrapResult)
    requires
        tt == TrapType::Arrow || tt == TrapType::Dart,
        sets_off(tt, *resistances, already_trapped),
    ensures
        dotrap_result_is(result, final(rng)@, dotrap_outcome(tt, old(rng)@, *resistances, already_trapped)),
{
    let mut result = DotrapResult::default();
    proof {
        reveal(dotrap_outcome);
        assert(views(result.messages@) =~= Seq::<Seq<char>>::empty());
    }
    match tt {
        TrapType::Arrow => {
            push_text(&mut result.messages, "An arrow shoots out at you!");
            let damage = roll_trap_damage(rng, tt);
            if rng.rn2(20) < resistances.dexterity as u32 / 3 {
                push_text(&mut result.messages, "You dodge the arrow.");
            } else {
                push_text(&mut result.messages, "It hits you!");
                result.damage = damage;
            }
        },
        TrapType::Dart => {
            push_text(&mut result.messages, "A little dart shoots out at you!");
            let damage = roll_trap_damage(rng, tt);
            if rng.rn2(20) < resistances.dexterity as u32 / 3 {
                push_text(&mut result.messages, "You dodge the dart.");
            } else {
                push_text(&mut result.messages, "It hits you!");
                result.damage = damage;
                if rng.one_in(3) {
                    if resistances.poison_resistant {
                        push_text(&mut result.messages, "The dart was poisoned, but you resist!");
                    } else {
                        push_text(&mut result.messages, "The dart was poisoned!");
                        result.status = Some(StatusEffect::Poisoned);
                    }
                }
            }
        },
        _ => {},
    }
    result
}

fn dotrap_blast(rng: &mut GameRng, tt: TrapType, resistances: &TrapResistances, already_trapped: bool) -> (result: DotrapResult)
    requires
        tt == TrapType::RockFall || tt == TrapType::LandMine || tt == TrapType::RollingBoulder || tt == TrapType::FireTrap,
        sets_off(tt, *resistances, already_trapped),
    ensures
        dotrap_result_is(result, final(rng)@, dotrap_outcome(tt, old(rng)@, *resistances, already_trapped)),
{
    let mut result = DotrapResult::default();
    proof {
        reveal(dotrap_outcome);
        assert(views(result.messages@) =~= Seq::<Seq<char>>::empty());
    }
    match tt {
        TrapType::RockFall => {
            push_text(&mut result.messages, "A rock falls on your head!");
            let damage = roll_trap_damage(rng, tt);
            result.damage = damage;
            push_string(&mut result.messages, text_int_text("WHANG! You suffer ", damage as i64, " damage."));
        },
        TrapType::LandMine => {
            push_text(&mut result.messages, "KAABLAMM!!! You step on a land mine!");
            let damage = roll_trap_damage(rng, tt);
            result.damage = damage;
            result.trap_destroyed = true;
            push_string(&mut result.messages, text_int_text("The explosion deals ", damage as i64, " damage!"));
        },
        TrapType::RollingBoulder => {
            push_text(&mut result.messages, "Click! You trigger a rolling boulder trap!");
            if rng.one_in(4) {
                push_text(&mut result.messages, "Fortunately, the boulder misses you.");
            } else {
                let damage = roll_trap_damage(rng, tt);
                result.damage = damage;
                push_string(&mut result.messages,
                    text_int_text("You are hit by a boulder for ", damage as i64, " damage!"));
            }
        },
        TrapType::FireTrap => {
            push_text(&mut result.messages, "A tower of flame erupts around you!");
            let damage = roll_trap_damage(rng, tt);
            if resistances.fire_resistant {
                push_text(&mut result.messages, "But you resist the fire!");
                result.damage = damage / 2;
            } else {
                result.damage = damage;
                push_string(&mut result.messages, text_int_text("You are scorched for ", damage as i64, " damage!"));
            }
        },
        _ => {},
    }
    result
}

fn dotrap_holding(rng: &mut GameRng, tt: TrapType, resistances: &TrapResistances, already_trapped: bool) -> (result: DotrapResult)
    requires
        tt == TrapType::BearTrap || tt == TrapType::Pit || tt == TrapType::SpikedPit || tt == TrapType::Web || tt == TrapType::SleepingGas,
        sets_off(tt, *resistances, already_trapped),
    ensures
        dotrap_result_is(result, final(rng)@, dotrap_outcome(tt, old(rng)@, *resistances, already_trapped)),
{
    let mut result = DotrapResult::default();
    proof {
        reveal(dotrap_outcome);
        assert(views(result.messages@) =~= Seq::<Seq<char>>::empty());
    }
    match tt {
        TrapType::BearTrap => {
            if resistances.levitating {
                push_text(&mut result.messages, "You float over a bear trap.");
            } else {
                push_text(&mut result.messages, "SNAP! A bear trap closes on your foot!");
                let damage = roll_trap_damage(rng, tt);
                result.damage = damage;
                result.held_turns = (rng.rnd(5) + 3) as i32;
                push_string(&mut result.messages,
                    text_int_text("You are caught! (for ", result.held_turns as i64, " turns)"));
            }
        },
        TrapType::SleepingGas => {
            push_text(&mut result.messages, "A cloud of gas billows up around you!");
            if resistances.sleep_resistant {
                push_text(&mut result.messages, "You don't feel sleepy.");
            } else {
                push_text(&mut result.messages, "You fall asleep!");
                result.status = Some(StatusEffect::Asleep);
                result.held_turns = (rng.rnd(25) + 10) as i32;
            }
        },
        TrapType::Pit => {
            if already_trapped {
                push_text(&mut result.messages, "You are still in the pit.");
            } else {
                push_text(&mut result.messages, "You fall into a pit!");
                let damage = roll_trap_damage(rng, tt);
                result.damage = damage;
                result.held_turns = (rng.rnd(6) + 2) as i32;
            }
        },
        TrapType::SpikedPit => {
            if already_trapped {
                push_text(&mut result.messages, "You are still in the spiked pit.");
            } else {
                push_text(&mut result.messages, "You fall into a pit of spikes!");
                let damage = roll_trap_damage(rng, tt);
                result.damage = damage;
                result.held_turns = (rng.rnd(8) + 3) as i32;
                if !resistances.poison_resistant && rng.one_in(6) {
                    push_text(&mut result.messages, "Some of the spikes were poisoned!");
                    result.status = Some(StatusEffect::Poisoned);
                }
            }
        },
        TrapType::Web => {
            if resistances.phasing {
                push_text(&mut result.messages, "You pass right through the web.");
            } else {
                push_text(&mut result.messages, "You stumble into a spider web!");
                result.held_turns = (rng.rnd(10) + 5) as i32;
                push_string(&mut result.messages,
                    text_int_text("You are stuck! (for ", result.held_turns as i64, " turns)"));
            }
        },
        _ => {},
    }
    result
}

fn dotrap_transport(rng: &mut GameRng, tt: TrapType, resistances: &TrapResistances, already_trapped: bool) -> (result: DotrapResult)
    requires
        tt == TrapType::Hole || tt == TrapType::TrapDoor || tt == TrapType::Teleport || tt == TrapType::LevelTeleport || tt == TrapType::MagicPortal,
        sets_off(tt, *resistances, already_trapped),
    ensures
        dotrap_result_is(result, final(rng)@, dotrap_outcome(tt, old(rng)@, *resistances, already_trapped)),
{
    let mut result = DotrapResult::default();
    proof {
        reveal(dotrap_outcome);
        assert(views(result.messages@) =~= Seq::<Seq<char>>::empty());
    }
    match tt {
        TrapType::Hole | TrapType::TrapDoor => {
            let hname = if matches!(tt, TrapType::Hole) { "hole" } else { "trap door" };
            if resistances.flying || resistances.levitating {
                let verb = if resistances.flying { "fly" } else { "float" };
                let mut m = text3("You ", verb, " over a ");
                m.append(hname);
                m.append(".");
                push_string(&mut result.messages, m);
            } else {
                let mut m = text3("You fall through a ", hname, "!");
                push_string(&mut result.messages, m);
                result.fell_through = true;
                result.damage = (rng.rnd(6) + 1) as i32;
            }
        },
        TrapType::Teleport => {
            push_text(&mut result.messages, "You are suddenly teleported!");
            if resistances.teleport_control {
                push_text(&mut result.messages, "You have control over where you land.");
            }
            let x = (rng.rn2(77) + 1) as i8;
            let y = (rng.rn2(19) + 1) as i8;
            result.teleport = Some((x, y));
        },
        TrapType::LevelTeleport => {
            if resistances.magic_resistant {
                push_text(&mut result.messages, "You shudder for a moment, but resist the magic.");
            } else {
                push_text(&mut result.messages, "You are teleported to another level!");
                result.fell_through = true;
                if resistances.teleport_control {
                    push_text(&mut result.messages, "You have some control over where you land.");
                }
            }
        },
        TrapType::MagicPortal => {
            push_text(&mut result.messages, "You feel a strange sensation...");
            result.fell_through = true;
        },
        _ => {},
    }
    result
}

fn dotrap_other(rng: &mut GameRng, tt: TrapType, resistances: &TrapResistances, already_trapped: bool) -> (result: DotrapResult)
    requires
        tt == TrapType::Squeaky || tt == TrapType::RustTrap || tt == TrapType::Statue || tt == TrapType::MagicTrap || tt == TrapType::AntiMagic || tt == TrapType::Polymorph,
        sets_off(tt, *resistances, already_trapped),
    ensures
        dotrap_result_is(result, final(rng)@, dotrap_outcome(tt, old(rng)@, *resistances, already_trapped)),
{
    let mut result = DotrapResult::default();
    proof {
        reveal(dotrap_outcome);
        assert(views(result.messages@) =~= Seq::<Seq<char>>::empty());
    }
    match tt {
        TrapType::Squeaky => {
            push_text(&mut result.messages, "A board beneath you squeaks loudly.");
            result.identified = true;
        },
        TrapType::RustTrap => {
            push_text(&mut result.messages, "A gush of water hits you!");
            result.status = Some(StatusEffect::Rusted);
        },
        TrapType::Statue => {
            push_text(&mut result.messages, "The statue comes to life!");
        },
        TrapType::MagicTrap => {
            push_text(&mut result.messages, "You are enveloped in a magical light!");
            let effect = rng.rn2(10);
            if effect <= 2 {
                push_text(&mut result.messages, "You feel disoriented.");
                result.status = Some(StatusEffect::Confused);
            } else if effect <= 4 {
                push_text(&mut result.messages, "A tower of flame erupts!");
                if !resistances.fire_resistant {
                    result.damage = rng.dice(4, 4) as i32;
                }
            } else if effect <= 6 {
                push_text(&mut result.messages, "You feel drained.");
            } else if effect == 7 {
                push_text(&mut result.messages, "You feel lucky!");
            } else if effect == 8 {
                push_text(&mut result.messages, "You feel unlucky.");
            } else {
                push_text(&mut result.messages, "Nothing happens.");
            }
        },
        TrapType::AntiMagic => {
            push_text(&mut result.messages, "You feel your magical energy draining away!");
            result.identified = true;
        },
        TrapType::Polymorph => {
            if resistances.magic_resistant {
                push_text(&mut result.messages, "You feel momentarily different, but resist.");
            } else {
                push_text(&mut result.messages, "You feel a change coming over you...");
            }
        },
        _ => {},
    }
    result
}

/// Whether a trap kind lies on the ground (flying and levitation avoid it).
pub open spec fn ground_trap(t: TrapType) -> bool {
    matches!(t, TrapType::BearTrap | TrapType::Pit | TrapType::SpikedPit | TrapType::Hole
        | TrapType::TrapDoor | TrapType::Web | TrapType::Squeaky)
}

/// Check if a trap type is a ground trap (affected by flying/levitation).
pub fn is_ground_trap(trap_type: TrapType) -> (r: bool)
    ensures
        r == ground_trap(trap_type),
{
    matches!(trap_type, TrapType::BearTrap | TrapType::Pit | TrapType::SpikedPit | TrapType::Hole
        | TrapType::TrapDoor | TrapType::Web | TrapType::Squeaky)
}

/// Message on getting out of a holding trap.
pub open spec fn escape_message_of(t: TrapType) -> Seq<char> {
    match t {
        TrapType::BearTrap => "You pull free of the bear trap."@,
        TrapType::Pit => "You climb out of the pit."@,
        TrapType::SpikedPit => "You climb out of the spiked pit."@,
        TrapType::Web => "You tear through the web."@,
        _ => "You escape from the trap."@,
    }
}

/// The trap resistances of a hero, read from the hero's properties through
/// `has_property`; no hero phases through walls.
pub fn resistances_from_properties<F>(has_property: F, dexterity: i8) -> (r: TrapResistances)
    where
        F: Fn(Property) -> bool,
    requires
        forall|p: Property| has_property.requires((p,)),
    ensures
        has_property.ensures((Property::Flying,), r.flying),
        has_property.ensures((Property::Levitation,), r.levitating),
        has_property.ensures((Property::FireResistance,), r.fire_resistant),
        has_property.ensures((Property::PoisonResistance,), r.poison_resistant),
        has_property.ensures((Property::SleepResistance,), r.sleep_resistant),
        has_property.ensures((Property::TeleportControl,), r.teleport_control),
        has_property.ensures((Property::MagicResistance,), r.magic_resistant),
        !r.phasing,
        r.dexterity == dexterity,
{
    TrapResistances {
        flying: has_property(Property::Flying),
        levitating: has_property(Property::Levitation),
        fire_resistant: has_property(Property::FireResistance),
        poison_resistant: has_property(Property::PoisonResistance),
        sleep_resistant: has_property(Property::SleepResistance),
        teleport_control: has_property(Property::TeleportControl),
        magic_resistant: has_property(Property::MagicResistance),
        phasing: false,
        dexterity,
    }
}

/// Get escape message when player gets out of a holding trap.
pub fn escape_trap_message(trap_type: TrapType) -> (s: &'static str)
    ensures
        s@ == escape_message_of(trap_type),
{
    match trap_type {
        TrapType::BearTrap => "You pull free of the bear trap.",
        TrapType::Pit => "You climb out of the pit.",
        TrapType::SpikedPit => "You climb out of the spiked pit.",
        TrapType::Web => "You tear through the web.",
        _ => "You escape from the trap.",
    }
}

/// Base percentage of escaping a holding trap in one turn.
pub open spec fn escape_base(t: TrapType) -> int {
    match t {
        TrapType::BearTrap => 25,
        TrapType::Pit | TrapType::SpikedPit => 40,
        TrapType::Web => 35,
        _ => 50,
    }
}

/// Check if player escapes a holding trap this turn: a percentage roll against
/// the trap's base chance plus three points per strength point above 10,
/// kept in 5..=95.
pub fn try_escape_trap(rng: &mut GameRng, trap_type: TrapType, strength: i8) -> (r: bool)
    ensures
        r == (rn2_at(old(rng)@, 100) < clamp(escape_base(trap_type) + (strength - 10) * 3, 5, 95)),
        final(rng)@ == step(old(rng)@),
{
    let base_chance: i32 = match trap_type {
        TrapType::BearTrap => 25,
        TrapType::Pit | TrapType::SpikedPit => 40,
        TrapType::Web => 35,
        _ => 50,
    };
    let chance = base_chance + (strength as i32 - 10) * 3;
    let bounded = if chance < 5 { 5 } else if chance > 95 { 95 } else { chance };
    (rng.rn2(100) as i32) < bounded
}

// ============================================================================
// Container traps (b_trapped, chest_trap)
// ============================================================================

/// Container trap type.
#[derive(Debug, Clone, Copy, PartialEq, Eq, Structural)]
pub enum ContainerTrap {
    /// No trap
    NoTrap,
    /// Poison needle
    Poison,
    /// Paralysis gas
    Paralysis,
    /// Explosion (destroys contents)
    Explosion,
    /// Summon monsters
    Summon,
    /// Electric shock
    Electric,
}

/// The container trap selected by a percentage roll.
pub open spec fn container_trap_for_roll(roll: int) -> ContainerTrap {
    if roll <= 24 { ContainerTrap::Poison }
    else if roll <= 44 { ContainerTrap::Paralysis }
    else if roll <= 64 { ContainerTrap::Explosion }
    else if roll <= 84 { ContainerTrap::Summon }
    else { ContainerTrap::Electric }
}

/// Kind of trap on a container with the trapped flag:
/// none when untrapped, otherwise poison 25%, paralysis 20%, explosion 20%,
/// summoning 20% and electricity 15%.
pub fn b_trapped(trapped: bool, rng: &mut GameRng) -> (t: ContainerTrap)
    ensures
        !trapped ==> t == ContainerTrap::NoTrap && final(rng)@ == old(rng)@,
        trapped ==> t == container_trap_for_roll(rn2_at(old(rng)@, 100) as int)
            && final(rng)@ == step(old(rng)@),
{
    if !trapped {
        return ContainerTrap::NoTrap;
    }
    let roll = rng.rn2(100);
    if roll <= 24 {
        ContainerTrap::Poison
    } else if roll <= 44 {
        ContainerTrap::Paralysis
    } else if roll <= 64 {
        ContainerTrap::Explosion
    } else if roll <= 84 {
        ContainerTrap::Summon
    } else {
        ContainerTrap::Electric
    }
}

/// Result of triggering a container trap.
#[derive(Debug, Clone)]
pub struct ContainerTrapResult {
    /// Messages to display
    pub messages: Vec<String>,
    /// Damage dealt
    pub damage: i32,
    /// Status effect (poison, paralysis)
    pub status: Option<StatusEffect>,
    /// Whether container contents are destroyed
    pub contents_destroyed: bool,
    /// Whether to summon monsters
    pub summon_monsters: bool,
}

impl Default for ContainerTrapResult {
    fn default() -> (r: Self)
        ensures
            r.messages@.len() == 0,
            r.damage == 0,
            r.status is None,
            !r.contents_destroyed,
            !r.summon_monsters,
    {
        ContainerTrapResult {
            messages: Vec::new(),
            damage: 0,
            status: None,
            contents_destroyed: false,
            summon_monsters: false,
        }
    }
}

/// Trigger a container trap.
pub fn chest_trap(
    rng: &mut GameRng,
    trap_type: ContainerTrap,
    resistances: &TrapResistances,
) -> (result: ContainerTrapResult)
    ensures
        match trap_type {
            ContainerTrap::NoTrap => views(result.messages@) =~= Seq::<Seq<char>>::empty()
                && result.damage == 0 && result.status is None && !result.contents_destroyed
                && !result.summon_monsters && final(rng)@ == old(rng)@,
            ContainerTrap::Poison => (if resistances.poison_resistant {
                views(result.messages@) =~= seq!["A small needle pricks you!"@,
                    "It doesn't seem to affect you."@]
                && result.damage == 0 && result.status is None && final(rng)@ == old(rng)@
            } else {
                views(result.messages@) =~= seq!["A small needle pricks you!"@, "You feel very sick!"@]
                && result.status == Some(StatusEffect::Poisoned)
                && result.damage == dice_at(old(rng)@, 1, 6) && final(rng)@ == steps(old(rng)@, 1)
            }) && !result.contents_destroyed && !result.summon_monsters,
            ContainerTrap::Paralysis => (if resistances.sleep_resistant {
                views(result.messages@) =~= seq!["A puff of gas escapes!"@, "You hold your breath."@]
                && result.status is None
            } else {
                views(result.messages@) =~= seq!["A puff of gas escapes!"@, "You are frozen!"@]
                && result.status == Some(StatusEffect::Paralyzed)
            }) && result.damage == 0 && !result.contents_destroyed && !result.summon_monsters
                && final(rng)@ == old(rng)@,
            ContainerTrap::Explosion => views(result.messages@) =~= seq!["KABOOM! The container explodes!"@]
                && result.damage == dice_at(old(rng)@, 4, 6) && final(rng)@ == steps(old(rng)@, 4)
                && result.status is None && result.contents_destroyed && !result.summon_monsters,
            ContainerTrap::Summon => views(result.messages@) =~= seq!["You trigger a magical trap!"@,
                "Monsters appear around you!"@]
                && result.damage == 0 && result.status is None && !result.contents_destroyed
                && result.summon_monsters && final(rng)@ == old(rng)@,
            ContainerTrap::Electric => views(result.messages@) =~= seq!["ZAP! You get an electric shock!"@]
                && result.damage == dice_at(old(rng)@, 2, 6) && final(rng)@ == steps(old(rng)@, 2)
                && result.status is None && !result.contents_destroyed && !result.summon_monsters,
        },
{
    let mut result = ContainerTrapResult::default();
    proof {
        assert(views(result.messages@) =~= Seq::<Seq<char>>::empty());
    }
    match trap_type {
        ContainerTrap::NoTrap => {},
        ContainerTrap::Poison => {
            push_text(&mut result.messages, "A small needle pricks you!");
            if resistances.poison_resistant {
                push_text(&mut result.messages, "It doesn't seem to affect you.");
            } else {
                push_text(&mut result.messages, "You feel very sick!");
                result.status = Some(StatusEffect::Poisoned);
                result.damage = rng.dice(1, 6) as i32;
            }
        },
        ContainerTrap::Paralysis => {
            push_text(&mut result.messages, "A puff of gas escapes!");
            if resistances.sleep_resistant {
                push_text(&mut result.messages, "You hold your breath.");
            } else {
                push_text(&mut result.messages, "You are frozen!");
                result.status = Some(StatusEffect::Paralyzed);
            }
        },
        ContainerTrap::Explosion => {
            push_text(&mut result.messages, "KABOOM! The container explodes!");
            result.damage = rng.dice(4, 6) as i32;
            result.contents_destroyed = true;
        },
        ContainerTrap::Summon => {
            push_text(&mut result.messages, "You trigger a magical trap!");
            push_text(&mut result.messages, "Monsters appear around you!");
            result.summon_monsters = true;
        },
        ContainerTrap::Electric => {
            push_text(&mut result.messages, "ZAP! You get an electric shock!");
            result.damage = rng.dice(2, 6) as i32;
        },
    }
    result
}

// ============================================================================
// Statue trap activation
// ============================================================================

/// Result of activating a statue trap.
#[derive(Debug, Clone)]
pub struct StatueTrapResult {
    /// Messages to display
    pub messages: Vec<String>,
    /// The monster type index that should emerge (if any)
    pub monster_type: Option<i16>,
    /// Whether the statue is destroyed
    pub statue_destroyed: bool,
    /// Whether the trap triggered successfully
    pub triggered: bool,
}

impl Default for StatueTrapResult {
    fn default() -> (r: Self)
        ensures
            r.messages@.len() == 0,
            r.monster_type is None,
            !r.statue_destroyed,
            !r.triggered,
    {
        StatueTrapResult { messages: Vec::new(), monster_type: None, statue_destroyed: false, triggered: false }
    }
}

/// Whether a statue's stored monster kind is a valid one.
pub open spec fn holds_monster(t: Option<i16>) -> bool {
    match t {
        Some(mt) => mt >= 0,
        None => false,
    }
}

/// Activate a statue trap, causing the monster inside to emerge.
///
/// Historic statues never activate; a statue with no valid monster crumbles;
/// otherwise one time in ten it crumbles, else the monster comes to life.
pub fn activate_statue_trap(
    rng: &mut GameRng,
    statue_monster_type: Option<i16>,
    historic: bool,
) -> (result: StatueTrapResult)
    ensures
        historic ==> views(result.messages@) =~= seq!["The historic statue remains motionless."@]
            && result.monster_type is None && !result.statue_destroyed && !result.triggered
            && final(rng)@ == old(rng)@,
        !historic && !holds_monster(statue_monster_type) ==>
            views(result.messages@) =~= seq!["The statue crumbles to dust!"@]
            && result.monster_type is None && result.statue_destroyed && !result.triggered
            && final(rng)@ == old(rng)@,
        !historic && holds_monster(statue_monster_type) ==> final(rng)@ == step(old(rng)@)
            && result.statue_destroyed && (if rn2_at(old(rng)@, 10) == 0 {
                views(result.messages@) =~= seq!["The statue crumbles!"@]
                && result.monster_type is None && !result.triggered
            } else {
                views(result.messages@) =~= seq!["The statue comes to life!"@]
                && result.monster_type == statue_monster_type && result.triggered
            }),
{
    let mut result = StatueTrapResult::default();
    proof {
        assert(views(result.messages@) =~= Seq::<Seq<char>>::empty());
    }
    if historic {
        push_text(&mut result.messages, "The historic statue remains motionless.");
        return result;
    }
    let monster_type: i16 = match statue_monster_type {
        Some(mt) => mt,
        None => -1,
    };
    if monster_type < 0 {
        push_text(&mut result.messages, "The statue crumbles to dust!");
        result.statue_destroyed = true;
        return result;
    }
    if rng.one_in(10) {
        push_text(&mut result.messages, "The statue crumbles!");
        result.statue_destroyed = true;
        return result;
    }
    push_text(&mut result.messages, "The statue comes to life!");
    result.monster_type = Some(monster_type);
    result.statue_destroyed = true;
    result.triggered = true;
    result
}

/// Check if a statue is a trap (has a monster inside).
pub fn is_statue_trap(has_corpsenm: bool, monster_type: Option<i16>) -> (r: bool)
    ensures
        r == (has_corpsenm && holds_monster(monster_type)),
{
    has_corpsenm && match monster_type {
        Some(t) => t >= 0,
        None => false,
    }
}

/// Get the message when a statue trap is revealed.
pub fn statue_trap_reveal_msg() -> (s: &'static str)
    ensures
        s@ == "You notice a peculiar cavity inside the statue."@,
{
    "You notice a peculiar cavity inside the statue."
}

// ============================================================================
// Additional trap helpers
// ============================================================================

/// Check if a door is trapped.
pub fn mb_trapped(trapped: bool) -> (r: bool)
    ensures
        r == trapped,
{
    trapped
}

/// The container trap chosen by `rndtrap_container` for a roll of `0..5`.
pub open spec fn container_trap_for_index(i: int) -> ContainerTrap {
    if i == 0 { ContainerTrap::Poison }
    else if i == 1 { ContainerTrap::Paralysis }
    else if i == 2 { ContainerTrap::Explosion }
    else if i == 3 { ContainerTrap::Summon }
    else { ContainerTrap::Electric }
}

/// Generate a random trap for a container, each kind equally likely.
pub fn rndtrap_container(rng: &mut GameRng) -> (t: ContainerTrap)
    ensures
        t == container_trap_for_index(rn2_at(old(rng)@, 5) as int),
        t != ContainerTrap::NoTrap,
        final(rng)@ == step(old(rng)@),
{
    let roll = rng.rn2(5);
    match roll {
        0 => ContainerTrap::Poison,
        1 => ContainerTrap::Paralysis,
        2 => ContainerTrap::Explosion,
        3 => ContainerTrap::Summon,
        _ => ContainerTrap::Electric,
    }
}

/// Check if player avoids triggering a container trap: a percentage roll
/// against `10 + 2*(dex-10) + luck`, kept in 1..=50.
pub fn avoid_container_trap(rng: &mut GameRng, dexterity: i8, luck: i8) -> (r: bool)
    ensures
        r == (rn2_at(old(rng)@, 100) < clamp(10 + (dexterity - 10) * 2 + luck, 1, 50)),
        final(rng)@ == step(old(rng)@),
{
    let chance = 10 + (dexterity as i32 - 10) * 2 + luck as i32;
    let bounded = if chance < 1 { 1 } else if chance > 50 { 50 } else { chance };
    (rng.rn2(100) as i32) < bounded
}

/// Number of trap kinds `rndtrap` draws from.
pub const RNDTRAP_POOL: usize = 17;

/// Entry `i` of the pool of trap kinds for random placement.
pub open spec fn rndtrap_pool(i: int) -> TrapType {
    if i == 0 { TrapType::Arrow }
    else if i == 1 { TrapType::Dart }
    else if i == 2 { TrapType::RockFall }
    else if i == 3 { TrapType::Squeaky }
    else if i == 4 { TrapType::BearTrap }
    else if i == 5 { TrapType::LandMine }
    else if i == 6 { TrapType::RollingBoulder }
    else if i == 7 { TrapType::SleepingGas }
    else if i == 8 { TrapType::RustTrap }
    else if i == 9 { TrapType::FireTrap }
    else if i == 10 { TrapType::Pit }
    else if i == 11 { TrapType::SpikedPit }
    else if i == 12 { TrapType::Web }
    else if i == 13 { TrapType::Teleport }
    else if i == 14 { TrapType::MagicTrap }
    else if i == 15 { TrapType::AntiMagic }
    else { TrapType::Polymorph }
}

fn rndtrap_pool_entry(i: u32) -> (t: TrapType)
    requires
        i < RNDTRAP_POOL,
    ensures
        t == rndtrap_pool(i as int),
{
    match i {
        0 => TrapType::Arrow,
        1 => TrapType::Dart,
        2 => TrapType::RockFall,
        3 => TrapType::Squeaky,
        4 => TrapType::BearTrap,
        5 => TrapType::LandMine,
        6 => TrapType::RollingBoulder,
        7 => TrapType::SleepingGas,
        8 => TrapType::RustTrap,
        9 => TrapType::FireTrap,
        10 => TrapType::Pit,
        11 => TrapType::SpikedPit,
        12 => TrapType::Web,
        13 => TrapType::Teleport,
        14 => TrapType::MagicTrap,
        15 => TrapType::AntiMagic,
        _ => TrapType::Polymorph,
    }
}

/// Whether trap kind `t` may be placed at random on a level of dungeon
/// `dnum` whose no-teleport flag is `no_teleport`.
pub open spec fn rndtrap_allowed(t: TrapType, dnum: i8, no_teleport: bool) -> bool {
    match t {
        TrapType::Hole => false,
        TrapType::TrapDoor => dnum != 1,
        TrapType::LevelTeleport | TrapType::Teleport => !no_teleport,
        TrapType::RollingBoulder => dnum != 7,
        _ => true,
    }
}

/// The kind the `k`-th draw from the pool gives, from state `s`.
pub open spec fn pool_draw(s: u64, k: nat) -> TrapType {
    rndtrap_pool(rn2_at(steps(s, k), RNDTRAP_POOL as u32) as int)
}

/// The first of the draws `k..` from state `s` whose kind is allowed on a
/// level of dungeon `dnum`; the search gives up at the largest `u64`.
pub open spec fn first_allowed_draw(s: u64, dnum: i8, no_teleport: bool, k: nat) -> nat
    decreases u64::MAX - k,
{
    if k >= u64::MAX {
        k
    } else if rndtrap_allowed(pool_draw(s, k), dnum, no_teleport) {
        k
    } else {
        first_allowed_draw(s, dnum, no_teleport, k + 1)
    }
}

/// Select a random trap kind for a special level:
/// draw from the pool until the kind is allowed on this level.
pub fn rndtrap(rng: &mut GameRng, level: &Level) -> (t: TrapType)
    ensures
        exists|i: int| 0 <= i < RNDTRAP_POOL && t == rndtrap_pool(i),
        rndtrap_allowed(t, level.dlevel.dungeon_num, level.flags.no_teleport),
        ({
            let k = first_allowed_draw(old(rng)@, level.dlevel.dungeon_num, level.flags.no_teleport, 0);
            k < u64::MAX ==> t == pool_draw(old(rng)@, k) && final(rng)@ == steps(old(rng)@, k + 1)
        }),
{
    let ghost s0 = old(rng)@;
    let ghost k0 = first_allowed_draw(s0, level.dlevel.dungeon_num, level.flags.no_teleport, 0);
    let mut tries: u64 = 0;
    while tries < u64::MAX
        invariant
            s0 == old(rng)@,
            k0 == first_allowed_draw(s0, level.dlevel.dungeon_num, level.flags.no_teleport, 0),
            k0 == first_allowed_draw(s0, level.dlevel.dungeon_num, level.flags.no_teleport, tries as nat),
            rng@ == steps(s0, tries as nat),
        decreases u64::MAX - tries,
    {
        let ghost st = rng@;
        let idx = rng.rn2(RNDTRAP_POOL as u32);
        let trap_type = rndtrap_pool_entry(idx);
        proof {
            lemma_steps_succ(s0, tries as nat);
            assert(trap_type == pool_draw(s0, tries as nat));
        }
        let valid = match trap_type {
            TrapType::Hole => false,
            TrapType::TrapDoor => level.dlevel.dungeon_num != 1,
            TrapType::LevelTeleport | TrapType::Teleport => !level.flags.no_teleport,
            TrapType::RollingBoulder => level.dlevel.dungeon_num != 7,
            _ => true,
        };
        if valid {
            return trap_type;
        }
        tries = tries + 1;
    }
    proof {
        assert(rndtrap_pool(0) == TrapType::Arrow);
    }
    TrapType::Arrow
}

/// Whether some unseen trap lies at `(x, y)`.
pub open spec fn hidden_trap_at(traps: Seq<Trap>, x: int, y: int) -> bool {
    exists|k: int| 0 <= k < traps.len() && traps[k].x == x && traps[k].y == y && !traps[k].seen
}

/// Number of map cells `(x+dx, y+dy)` with `dx, dy` in `-1..=1` scanned so
/// far (the first `n` in row-major order over `dx` then `dy`) holding an unseen trap.
pub open spec fn hidden_count_prefix(traps: Seq<Trap>, x: int, y: int, n: int) -> int
    decreases n,
{
    if n <= 0 {
        0
    } else {
        let k = n - 1;
        let nx = x + (k / 3) - 1;
        let ny = y + (k % 3) - 1;
        hidden_count_prefix(traps, x, y, n - 1) + if 0 <= nx < COLNO && 0 <= ny < ROWNO
            && hidden_trap_at(traps, nx, ny) { 1int } else { 0int }
    }
}

fn hidden_trap_at_exec(level: &Level, nx: i32, ny: i32) -> (r: bool)
    ensures
        r == hidden_trap_at(level.traps@, nx as int, ny as int),
{
    let mut k: usize = 0;
    while k < level.traps.len()
        invariant
            k <= level.traps@.len(),
            forall|j: int| 0 <= j < k ==> !(level.traps@[j].x == nx && level.traps@[j].y == ny
                && !level.traps@[j].seen),
        decreases level.traps@.len() - k,
    {
        let t = level.traps[k];
        if t.x as i32 == nx && t.y as i32 == ny && !t.seen {
            assert(level.traps@[k as int] == t);
            return true;
        }
        k = k + 1;
    }
    false
}

/// Count the cells of the 3x3 block around `(x, y)` that hold hidden traps;
/// seen traps are not counted and several traps in one cell count once.
pub fn count_surround_traps(level: &Level, x: i8, y: i8) -> (n: usize)
    ensures
        n == hidden_count_prefix(level.traps@, x as int, y as int, 9),
{
    let mut count: usize = 0;
    let mut k: i32 = 0;
    while k < 9
        invariant
            0 <= k <= 9,
            count == hidden_count_prefix(level.traps@, x as int, y as int, k as int),
            count <= k,
        decreases 9 - k,
    {
        let nx = x as i32 + k / 3 - 1;
        let ny = y as i32 + k % 3 - 1;
        if nx >= 0 && (nx as usize) < COLNO && ny >= 0 && (ny as usize) < ROWNO {
            if hidden_trap_at_exec(level, nx, ny) {
                count = count + 1;
            }
        }
        k = k + 1;
    }
    count
}


/// Fire resistance halves a fire trap: from the same generator state and
/// otherwise the same circumstances, a fire-resistant hero takes half
/// (rounded down) the damage a hero without it takes, and the generator
/// ends in the same state.
pub proof fn lemma_fire_resistance_halves_fire_trap(s: u64, r: TrapResistances, already: bool)
    requires
        r.fire_resistant,
    ensures
        ({
            let hot = dotrap_outcome(TrapType::FireTrap, s, TrapResistances { fire_resistant: false, ..r }, already);
            let cool = dotrap_outcome(TrapType::FireTrap, s, r, already);
            &&& cool.damage == hot.damage / 2
            &&& hot.damage >= 0 ==> cool.damage <= hot.damage
            &&& cool.state == hot.state
        }),
{
    reveal(dotrap_outcome);
}

/// A sleeping gas trap always puts the hero to sleep when triggered, using
/// no randomness, and it is the only trap kind whose effect is sleep.
pub proof fn lemma_sleeping_gas_trap_puts_to_sleep(t: TrapType, s: u64)
    ensures
        trigger_outcome(TrapType::SleepingGas, s) == (TrapEffect::Status(StatusEffect::Asleep), s),
        trigger_outcome(t, s).0 == TrapEffect::Status(StatusEffect::Asleep) <==> t == TrapType::SleepingGas,
{
}

} // verus!
