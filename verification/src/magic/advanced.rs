//! Casting spells: whether one can begin, interruption, failure, resistance
//! and the power of a spell.

use vstd::prelude::*;
use crate::num::trunc_div;
use crate::player::{Attribute, You};
use crate::rng::{GameRng, rn2_at, rnd_at, step};
use crate::text::str_eq;

verus! {

/// Why a spell fails.
#[derive(Debug, Clone, Copy, PartialEq, Eq, Structural)]
pub enum SpellFailureReason {
    InsufficientMana,
    Interrupted,
    Resisted,
    Confused,
    Silenced,
    Exhausted,
}

/// A spell interrupted while being cast.
#[derive(Debug, Clone)]
pub struct InterruptEvent {
    pub reason: SpellFailureReason,
    pub message: String,
}

/// Whether the hero can begin a spell: not while confused, and not with less
/// than 10 points of energy.
pub fn can_start_spell(player: &You, spell_level: i32) -> (r: Result<(), SpellFailureReason>)
    ensures
        player.confused_timeout > 0 ==> r == Err::<(), SpellFailureReason>(SpellFailureReason::Confused),
        player.confused_timeout == 0 && player.energy < 10 ==> r == Err::<(), SpellFailureReason>(
            SpellFailureReason::Exhausted),
        player.confused_timeout == 0 && player.energy >= 10 ==> r is Ok,
{
    if player.confused_timeout > 0 {
        return Err(SpellFailureReason::Confused);
    }
    if player.energy < 10 {
        return Err(SpellFailureReason::Exhausted);
    }
    Ok(())
}

/// A confused hero's spell is interrupted four times in ten.
pub fn check_spell_interruption(player: &You, rng: &mut GameRng) -> (r: Option<InterruptEvent>)
    ensures
        final(rng)@ == (if player.confused_timeout > 0 { step(old(rng)@) } else { old(rng)@ }),
        (player.confused_timeout > 0 && rn2_at(old(rng)@, 100) < 40) ==> (r matches Some(e) && e.reason
            == SpellFailureReason::Interrupted && e.message@ == "Your concentration is broken by confusion!"@),
        !(player.confused_timeout > 0 && rn2_at(old(rng)@, 100) < 40) ==> r is None,
{
    if player.confused_timeout > 0 && rng.percent(40) {
        return Some(
            InterruptEvent {
                reason: SpellFailureReason::Interrupted,
                message: String::from_str("Your concentration is broken by confusion!"),
            },
        );
    }
    None
}

/// A target's resistance to spells: twice its level, plus 10.
pub open spec fn spell_resistance(level: int) -> int {
    level * 2 + 10
}

/// A target's resistance to spells.
pub fn calculate_spell_resistance(target_level: i32) -> (r: i32)
    requires
        i32::MIN <= target_level * 2,
        spell_resistance(target_level as int) <= i32::MAX,
    ensures
        r == spell_resistance(target_level as int),
{
    let mut resistance: i32 = 0;
    resistance = resistance + target_level * 2;
    resistance = resistance + 10;
    resistance
}

/// The chance in percent that a spell gets past a target of `level`: 100
/// less its resistance, the resistance counted at most 95.
pub open spec fn pass_chance(level: int) -> int {
    let res = spell_resistance(level);
    100 - (if res < 95 { res } else { 95 })
}

/// Whether a target resists a spell: it does unless the spell passes its
/// chance.
pub fn check_spell_resistance(target_level: i32, spell_power: i32, rng: &mut GameRng) -> (r: bool)
    requires
        i32::MIN <= target_level * 2,
        spell_resistance(target_level as int) <= i32::MAX,
        pass_chance(target_level as int) <= i32::MAX,
    ensures
        r == !(rn2_at(old(rng)@, 100) < pass_chance(target_level as int)),
        final(rng)@ == step(old(rng)@),
{
    let resistance = calculate_spell_resistance(target_level);
    let success_chance = 100 - (if resistance < 95 { resistance } else { 95 });
    !rng.percent(success_chance as u32)
}

/// The hero's chance in percent that a spell of `difficulty` fails: 5 per
/// level of difficulty, 3 less for each two points of intelligence above 10
/// (more below), at least 0; doubled when confused; at most 99.
pub open spec fn failure_rate(p: You, difficulty: int) -> int {
    let int_bonus = trunc_div(p.attr_current.intelligence - 10, 2);
    let base = difficulty * 5 - int_bonus * 3;
    let f = if base > 0 { base } else { 0 };
    let g = if p.confused_timeout > 0 { if f * 2 < 99 { f * 2 } else { 99 } } else { f };
    if g < 99 { g } else { 99 }
}

/// Halving rounded toward zero keeps the order of its arguments.
proof fn lemma_trunc_half_monotone(a: int, b: int)
    requires
        a >= b,
    ensures
        trunc_div(a, 2) >= trunc_div(b, 2),
{
    if b >= 0 {
        assert(a / 2 >= b / 2) by (nonlinear_arith)
            requires
                a >= b,
                b >= 0,
        ;
    } else if a >= 0 {
        assert(a / 2 >= 0) by (nonlinear_arith)
            requires
                a >= 0,
        ;
        assert((-b) / 2 >= 0) by (nonlinear_arith)
            requires
                -b > 0,
        ;
    } else {
        assert((-a) / 2 <= (-b) / 2) by (nonlinear_arith)
            requires
                -a <= -b,
                -a > 0,
        ;
    }
}

/// More intelligence never makes a spell more likely to fail: of two heroes
/// alike in confusion, the one with at least the other's intelligence has at
/// most the other's failure rate, and every rate lies between 0 and 99.
/// `calculate_spell_failure_rate` returns exactly `failure_rate`, so for
/// such heroes it never returns more for the more intelligent one.
pub proof fn lemma_intelligence_lowers_failure(p1: You, p2: You, difficulty: int)
    requires
        p1.attr_current.intelligence >= p2.attr_current.intelligence,
        (p1.confused_timeout > 0) == (p2.confused_timeout > 0),
    ensures
        0 <= failure_rate(p1, difficulty) <= 99,
        0 <= failure_rate(p2, difficulty) <= 99,
        failure_rate(p1, difficulty) <= failure_rate(p2, difficulty),
{
    lemma_trunc_half_monotone(p1.attr_current.intelligence - 10, p2.attr_current.intelligence - 10);
}

/// The arithmetic of the failure rate stays in range.
pub open spec fn failure_rate_fits(p: You, difficulty: int) -> bool {
    let int_bonus = trunc_div(p.attr_current.intelligence - 10, 2);
    &&& p.attr_current.intelligence >= -118
    &&& i32::MIN <= difficulty * 5 <= i32::MAX
    &&& i32::MIN <= difficulty * 5 - int_bonus * 3 <= i32::MAX
    &&& p.confused_timeout > 0 ==> difficulty * 5 - int_bonus * 3 <= i32::MAX / 2
}

/// The hero's chance in percent that a spell fails.
pub fn calculate_spell_failure_rate(player: &You, spell_difficulty: i32) -> (r: i32)
    requires
        failure_rate_fits(*player, spell_difficulty as int),
    ensures
        r == failure_rate(*player, spell_difficulty as int),
        0 <= r <= 99,
{
    let mut failure_rate: i32 = spell_difficulty * 5;
    let intelligence = player.attr_current.get(Attribute::Intelligence);
    let d: i8 = intelligence - 10;
    let wide: i32 = d as i32;
    let int_bonus: i32 = if wide >= 0 { wide / 2 } else { -((-wide) / 2) };
    let lowered = failure_rate - int_bonus * 3;
    failure_rate = if lowered > 0 { lowered } else { 0 };
    if player.confused_timeout > 0 {
        let doubled = failure_rate * 2;
        failure_rate = if doubled < 99 { doubled } else { 99 };
    }
    if failure_rate < 99 { failure_rate } else { 99 }
}

/// Whether the hero's spell fails.
pub fn check_spell_failure(player: &You, spell_difficulty: i32, rng: &mut GameRng) -> (r: bool)
    requires
        failure_rate_fits(*player, spell_difficulty as int),
    ensures
        r == (rn2_at(old(rng)@, 100) < failure_rate(*player, spell_difficulty as int)),
        final(rng)@ == step(old(rng)@),
{
    let failure_rate = calculate_spell_failure_rate(player, spell_difficulty);
    rng.percent(failure_rate as u32)
}

/// The message of a failure.
pub open spec fn failure_message(r: SpellFailureReason) -> Seq<char> {
    match r {
        SpellFailureReason::InsufficientMana => "You don't have enough mana for this spell."@,
        SpellFailureReason::Interrupted => "Your spell is interrupted!"@,
        SpellFailureReason::Resisted => "The spell has no effect."@,
        SpellFailureReason::Confused => "You are too confused to cast that spell."@,
        SpellFailureReason::Silenced => "The spell fails; you cannot speak!"@,
        SpellFailureReason::Exhausted => "You are too exhausted to cast this spell."@,
    }
}

/// The message of a failure.
pub fn spell_failure_message(reason: SpellFailureReason) -> (s: &'static str)
    ensures
        s@ == failure_message(reason),
{
    match reason {
        SpellFailureReason::InsufficientMana => "You don't have enough mana for this spell.",
        SpellFailureReason::Interrupted => "Your spell is interrupted!",
        SpellFailureReason::Resisted => "The spell has no effect.",
        SpellFailureReason::Confused => "You are too confused to cast that spell.",
        SpellFailureReason::Silenced => "The spell fails; you cannot speak!",
        SpellFailureReason::Exhausted => "You are too exhausted to cast this spell.",
    }
}

/// The power of the hero's spell of `level`: ten per level, two per point of
/// intelligence above 10 (less below), a tenth of the hero's energy, at
/// least 1.
pub open spec fn spell_power(p: You, level: int) -> int {
    let power = level * 10 + (p.attr_current.intelligence - 10) * 2 + trunc_div(p.energy as int, 10);
    if power > 1 { power } else { 1 }
}

/// The power of the hero's spell.
pub fn calculate_spell_power(player: &You, spell_level: i32, spell_school: i32) -> (r: i32)
    requires
        i32::MIN <= spell_level * 10 <= i32::MAX,
        i32::MIN <= spell_level * 10 + (player.attr_current.intelligence - 10) * 2 <= i32::MAX,
        i32::MIN <= spell_level * 10 + (player.attr_current.intelligence - 10) * 2 + trunc_div(player.energy as int, 10)
            <= i32::MAX,
    ensures
        r == spell_power(*player, spell_level as int),
{
    let mut power: i32 = spell_level * 10;
    let intelligence = player.attr_current.get(Attribute::Intelligence);
    power = power + (intelligence as i32 - 10) * 2;
    let e = player.energy;
    let tenth: i32 = if e >= 0 { e / 10 } else { -((-(e as i64)) / 10) as i32 };
    power = power + tenth;
    if power > 1 { power } else { 1 }
}

/// Whether a spell of type `t` affects the undead.
pub open spec fn affects_undead(t: Seq<char>) -> bool {
    t == "turn_undead"@ || t == "finger_of_death"@ || t == "holy_word"@ || t == "protection_from_undead"@
}

/// Whether a spell of type `t` affects demons.
pub open spec fn affects_demons(t: Seq<char>) -> bool {
    t == "banishment"@ || t == "protect_evil"@ || t == "holy_word"@
}

/// Whether a spell type affects the undead.
pub fn spell_affects_undead(spell_type: &str) -> (r: bool)
    ensures
        r == affects_undead(spell_type@),
{
    str_eq(spell_type, "turn_undead") || str_eq(spell_type, "finger_of_death") || str_eq(spell_type, "holy_word")
        || str_eq(spell_type, "protection_from_undead")
}

/// Whether a spell type affects demons.
pub fn spell_affects_demons(spell_type: &str) -> (r: bool)
    ensures
        r == affects_demons(spell_type@),
{
    str_eq(spell_type, "banishment") || str_eq(spell_type, "protect_evil") || str_eq(spell_type, "holy_word")
}

/// The number a monster of `level` must beat against a spell of `power`:
/// 10, plus a tenth of the power, less half the level.
pub open spec fn save_target(level: int, power: int) -> int {
    10 + trunc_div(power, 10) - trunc_div(level, 2)
}

/// Whether a monster saves against a spell: a d20 above its target.
pub fn monster_save_vs_magic(target_level: i32, spell_power: i32, rng: &mut GameRng) -> (r: bool)
    requires
        i32::MIN <= save_target(target_level as int, spell_power as int) <= i32::MAX,
    ensures
        r == (rnd_at(old(rng)@, 20) > save_target(target_level as int, spell_power as int)),
        final(rng)@ == step(old(rng)@),
{
    let p10: i32 = if spell_power >= 0 { spell_power / 10 } else { -((-(spell_power as i64)) / 10) as i32 };
    let l2: i32 = if target_level >= 0 { target_level / 2 } else { -((-(target_level as i64)) / 2) as i32 };
    let mut save_dc: i32 = 10 + p10;
    save_dc = save_dc - l2;
    let roll = rng.rnd(20) as i32;
    roll > save_dc
}


/// Confusion doubles the failure rate: a confused hero's rate is twice the
/// rate the same hero would have unconfused, capped at 99, so it is strictly
/// higher whenever the unconfused rate lies between 1 and 98.
pub proof fn lemma_confusion_doubles_failure(p: You, difficulty: int)
    requires
        p.confused_timeout > 0,
    ensures
        ({
            let calm = failure_rate(You { confused_timeout: 0, ..p }, difficulty);
            &&& failure_rate(p, difficulty) == if 2 * calm < 99 { 2 * calm } else { 99 }
            &&& 1 <= calm <= 98 ==> failure_rate(p, difficulty) > calm
        }),
{
}

} // verus!
