//! Potions: drinking them, being hit by thrown ones, and breathing their
//! vapors; and the glow messages of warning artifacts.

use vstd::prelude::*;
use vstd::string::*;
use crate::monster::{Monster, MonsterResistances, MonsterState};
use crate::num::{clamp_int, div_trunc, trunc_div};
use crate::object::{BucStatus, Object};
use crate::player::{Attribute, Attributes, Property, PropertySet, You, prop_index};
use crate::rng::{GameRng, dice_at, rn2_at, rnd_at, step, steps};
use crate::text::{int_str, nat_str, push_int, push_text, views};

verus! {

/// Glow strength (0 to 3) for a number of nearby monsters warned of.
pub open spec fn glow_level(count: int) -> int {
    if count > 12 { 3 } else if count > 4 { 2 } else if count > 0 { 1 } else { 0 }
}

/// Get the glow strength for a count of nearby monsters.
pub fn glow_strength(count: i32) -> (g: usize)
    ensures
        g == glow_level(count as int),
{
    if count > 12 { 3 } else if count > 4 { 2 } else if count > 0 { 1 } else { 0 }
}

/// The glow verb of a strength.
pub open spec fn glow_word(g: int) -> Seq<char> {
    if g == 0 { "quiver"@ } else if g == 1 { "flicker"@ } else if g == 2 { "glimmer"@ } else { "gleam"@ }
}

/// Get the glow verb for a count, with `ing` when asked.
pub fn glow_verb(count: i32, with_ing_suffix: bool) -> (s: String)
    ensures
        s@ == glow_word(glow_level(count as int)) + (if with_ing_suffix { "ing"@ } else { Seq::<char>::empty() }),
{
    let strength = glow_strength(count);
    let verb: &str = if strength == 0 { "quiver" } else if strength == 1 { "flicker" } else if strength == 2 {
        "glimmer" } else { "gleam" };
    let mut s = String::from_str(verb);
    if with_ing_suffix {
        s.append("ing");
    } else {
        assert(s@ =~= verb@ + Seq::<char>::empty());
    }
    s
}

/// The glow color of an artifact by its index.
pub open spec fn glow_hue(i: int) -> Seq<char> {
    if i <= 5 { "blue"@ } else if i <= 10 { "white"@ } else if i <= 15 { "yellow"@ } else { "blue"@ }
}

/// Get the glow color of an artifact.
pub fn glow_color(artifact_index: usize) -> (s: &'static str)
    ensures
        s@ == glow_hue(artifact_index as int),
{
    if artifact_index <= 5 { "blue" } else if artifact_index <= 10 { "white" } else if artifact_index <= 15 {
        "yellow" } else { "blue" }
}

/// `<name> briefly.`
pub fn p_glow1(object_name: &str) -> (s: String)
    ensures
        s@ == object_name@ + " briefly."@,
{
    let mut s = String::from_str(object_name);
    s.append(" briefly.");
    s
}

/// `<name> <color> for a moment.`
pub fn p_glow2(object_name: &str, color: &str) -> (s: String)
    ensures
        s@ == object_name@ + " "@ + color@ + " for a moment."@,
{
    let mut s = String::from_str(object_name);
    s.append(" ");
    s.append(color);
    s.append(" for a moment.");
    s
}

/// Result of drinking or breathing a potion.
#[derive(Debug, Clone)]
pub struct PotionResult {
    pub messages: Vec<String>,
    /// Whether the potion was used up.
    pub consumed: bool,
    pub player_died: bool,
    /// Whether the potion becomes known.
    pub identify: bool,
    /// Levels moved: positive up, negative down.
    pub level_change: i32,
}

impl PotionResult {
    /// No messages; consumed and identified; nobody died; no level change.
    pub fn new() -> (r: Self)
        ensures
            r.messages@.len() == 0,
            r.consumed && r.identify && !r.player_died && r.level_change == 0,
    {
        PotionResult { messages: Vec::new(), consumed: true, player_died: false, identify: true, level_change: 0 }
    }

    /// The result with a message added.
    pub fn with_message(self, msg: &str) -> (r: Self)
        ensures
            views(r.messages@) == views(self.messages@).push(msg@),
            r.consumed == self.consumed && r.identify == self.identify,
            r.player_died == self.player_died && r.level_change == self.level_change,
    {
        let mut r = self;
        let ghost before = r.messages@;
        r.messages.push(String::from_str(msg));
        assert(views(r.messages@) =~= views(before).push(msg@));
        r
    }
}

impl Default for PotionResult {
    fn default() -> (r: Self)
        ensures
            r.messages@.len() == 0,
            r.consumed && r.identify && !r.player_died && r.level_change == 0,
    {
        Self::new()
    }
}

/// Kinds of potions, by object type `257..=283`.
#[derive(Debug, Clone, Copy, PartialEq, Eq, Structural)]
pub enum PotionType {
    GainAbility,
    Restore,
    Confusion,
    Blindness,
    Paralysis,
    Speed,
    Levitation,
    Hallucination,
    Invisibility,
    SeeInvisible,
    Healing,
    ExtraHealing,
    GainLevel,
    Enlightenment,
    MonsterDetection,
    ObjectDetection,
    GainEnergy,
    Sleeping,
    FullHealing,
    Polymorph,
    Booze,
    Sickness,
    FruitJuice,
    Acid,
    Oil,
    Water,
    Poison,
}

/// The object type number of a potion kind.
pub open spec fn potion_number(t: PotionType) -> int {
    match t {
        PotionType::GainAbility => 257,
        PotionType::Restore => 258,
        PotionType::Confusion => 259,
        PotionType::Blindness => 260,
        PotionType::Paralysis => 261,
        PotionType::Speed => 262,
        PotionType::Levitation => 263,
        PotionType::Hallucination => 264,
        PotionType::Invisibility => 265,
        PotionType::SeeInvisible => 266,
        PotionType::Healing => 267,
        PotionType::ExtraHealing => 268,
        PotionType::GainLevel => 269,
        PotionType::Enlightenment => 270,
        PotionType::MonsterDetection => 271,
        PotionType::ObjectDetection => 272,
        PotionType::GainEnergy => 273,
        PotionType::Sleeping => 274,
        PotionType::FullHealing => 275,
        PotionType::Polymorph => 276,
        PotionType::Booze => 277,
        PotionType::Sickness => 278,
        PotionType::FruitJuice => 279,
        PotionType::Acid => 280,
        PotionType::Oil => 281,
        PotionType::Water => 282,
        PotionType::Poison => 283,
    }
}

/// The potion kind of an object type, if it is one.
pub open spec fn potion_of(otype: int) -> Option<PotionType> {
    if otype == 257 { Some(PotionType::GainAbility) }
    else if otype == 258 { Some(PotionType::Restore) }
    else if otype == 259 { Some(PotionType::Confusion) }
    else if otype == 260 { Some(PotionType::Blindness) }
    else if otype == 261 { Some(PotionType::Paralysis) }
    else if otype == 262 { Some(PotionType::Speed) }
    else if otype == 263 { Some(PotionType::Levitation) }
    else if otype == 264 { Some(PotionType::Hallucination) }
    else if otype == 265 { Some(PotionType::Invisibility) }
    else if otype == 266 { Some(PotionType::SeeInvisible) }
    else if otype == 267 { Some(PotionType::Healing) }
    else if otype == 268 { Some(PotionType::ExtraHealing) }
    else if otype == 269 { Some(PotionType::GainLevel) }
    else if otype == 270 { Some(PotionType::Enlightenment) }
    else if otype == 271 { Some(PotionType::MonsterDetection) }
    else if otype == 272 { Some(PotionType::ObjectDetection) }
    else if otype == 273 { Some(PotionType::GainEnergy) }
    else if otype == 274 { Some(PotionType::Sleeping) }
    else if otype == 275 { Some(PotionType::FullHealing) }
    else if otype == 276 { Some(PotionType::Polymorph) }
    else if otype == 277 { Some(PotionType::Booze) }
    else if otype == 278 { Some(PotionType::Sickness) }
    else if otype == 279 { Some(PotionType::FruitJuice) }
    else if otype == 280 { Some(PotionType::Acid) }
    else if otype == 281 { Some(PotionType::Oil) }
    else if otype == 282 { Some(PotionType::Water) }
    else if otype == 283 { Some(PotionType::Poison) }
    else { None }
}

impl PotionType {
    /// The object type number of the kind.
    pub fn object_type(&self) -> (n: i16)
        ensures
            n == potion_number(*self),
    {
        match self {
            PotionType::GainAbility => 257,
            PotionType::Restore => 258,
            PotionType::Confusion => 259,
            PotionType::Blindness => 260,
            PotionType::Paralysis => 261,
            PotionType::Speed => 262,
            PotionType::Levitation => 263,
            PotionType::Hallucination => 264,
            PotionType::Invisibility => 265,
            PotionType::SeeInvisible => 266,
            PotionType::Healing => 267,
            PotionType::ExtraHealing => 268,
            PotionType::GainLevel => 269,
            PotionType::Enlightenment => 270,
            PotionType::MonsterDetection => 271,
            PotionType::ObjectDetection => 272,
            PotionType::GainEnergy => 273,
            PotionType::Sleeping => 274,
            PotionType::FullHealing => 275,
            PotionType::Polymorph => 276,
            PotionType::Booze => 277,
            PotionType::Sickness => 278,
            PotionType::FruitJuice => 279,
            PotionType::Acid => 280,
            PotionType::Oil => 281,
            PotionType::Water => 282,
            PotionType::Poison => 283,
        }
    }

    /// The potion kind of an object type, if it is one.
    pub fn from_object_type(otype: i16) -> (r: Option<Self>)
        ensures
            r == potion_of(otype as int),
    {
        match otype {
            257 => Some(PotionType::GainAbility),
            258 => Some(PotionType::Restore),
            259 => Some(PotionType::Confusion),
            260 => Some(PotionType::Blindness),
            261 => Some(PotionType::Paralysis),
            262 => Some(PotionType::Speed),
            263 => Some(PotionType::Levitation),
            264 => Some(PotionType::Hallucination),
            265 => Some(PotionType::Invisibility),
            266 => Some(PotionType::SeeInvisible),
            267 => Some(PotionType::Healing),
            268 => Some(PotionType::ExtraHealing),
            269 => Some(PotionType::GainLevel),
            270 => Some(PotionType::Enlightenment),
            271 => Some(PotionType::MonsterDetection),
            272 => Some(PotionType::ObjectDetection),
            273 => Some(PotionType::GainEnergy),
            274 => Some(PotionType::Sleeping),
            275 => Some(PotionType::FullHealing),
            276 => Some(PotionType::Polymorph),
            277 => Some(PotionType::Booze),
            278 => Some(PotionType::Sickness),
            279 => Some(PotionType::FruitJuice),
            280 => Some(PotionType::Acid),
            281 => Some(PotionType::Oil),
            282 => Some(PotionType::Water),
            283 => Some(PotionType::Poison),
            _ => None,
        }
    }
}

/// `min(a, b)`.
pub open spec fn min_i(a: int, b: int) -> int {
    if a < b { a } else { b }
}

/// A result reporting exactly `msgs`, consumed and identified, with the
/// given death and level change.
pub open spec fn result_is(r: PotionResult, msgs: Seq<Seq<char>>, died: bool, level_change: int) -> bool {
    &&& views(r.messages@) == msgs
    &&& r.consumed && r.identify
    &&& r.player_died == died
    &&& r.level_change == level_change
}

/// Push a message.
fn say(r: &mut PotionResult, msg: &str)
    ensures
        views(final(r).messages@) == views(old(r).messages@).push(msg@),
        final(r).consumed == old(r).consumed && final(r).identify == old(r).identify,
        final(r).player_died == old(r).player_died && final(r).level_change == old(r).level_change,
{
    let ghost before = r.messages@;
    r.messages.push(String::from_str(msg));
    assert(views(r.messages@) =~= views(before).push(msg@));
}

/// Push a built message.
fn say_string(r: &mut PotionResult, msg: String)
    ensures
        views(final(r).messages@) == views(old(r).messages@).push(msg@),
        final(r).consumed == old(r).consumed && final(r).identify == old(r).identify,
        final(r).player_died == old(r).player_died && final(r).level_change == old(r).level_change,
{
    let ghost before = r.messages@;
    let ghost mv = msg@;
    r.messages.push(msg);
    assert(views(r.messages@) =~= views(before).push(mv));
}

/// `a`, the decimal rendering of `n`, then `b`.
fn text_num(a: &str, n: i32, b: &str) -> (s: String)
    ensures
        s@ == a@ + int_str(n as int) + b@,
{
    let mut s = String::from_str(a);
    push_int(&mut s, n as i64);
    s.append(b);
    s
}

/// The hero with properties `props` and otherwise as `p`.
pub open spec fn with_props(p: You, props: PropertySet) -> You {
    You { properties: props, ..p }
}

/// The properties of `new` are those of `old` with `q` timed to `d` turns.
pub open spec fn timeout_set(old: PropertySet, new: PropertySet, q: Property, d: u32) -> bool {
    &&& new.wf()
    &&& new.intrinsic@ == old.intrinsic@
    &&& new.timeout@ == old.timeout@.update(prop_index(q), d)
}

/// The properties of `new` are those of `old` with `q` made intrinsic.
pub open spec fn intrinsic_granted(old: PropertySet, new: PropertySet, q: Property) -> bool {
    &&& new.wf()
    &&& new.intrinsic@ == old.intrinsic@.update(prop_index(q), true)
    &&& new.timeout@ == old.timeout@
}

/// The properties of `new` are those of `old` with `q` no longer intrinsic.
pub open spec fn intrinsic_removed(old: PropertySet, new: PropertySet, q: Property) -> bool {
    &&& new.wf()
    &&& new.intrinsic@ == old.intrinsic@.update(prop_index(q), false)
    &&& new.timeout@ == old.timeout@
}

/// Healing amount of a drunk potion of healing.
pub open spec fn healing_amount(s: u64, blessed: bool, cursed: bool) -> int {
    if blessed { dice_at(s, 8, 4) + 8 } else if cursed { dice_at(s, 4, 4) } else { dice_at(s, 6, 4) }
}

/// Dice thrown for a drunk potion of healing.
pub open spec fn healing_dice(blessed: bool, cursed: bool) -> nat {
    if blessed { 8 } else if cursed { 4 } else { 6 }
}

/// Healing amount of a drunk potion of extra healing.
pub open spec fn extra_healing_amount(s: u64, blessed: bool, cursed: bool) -> int {
    if blessed { dice_at(s, 8, 8) + 16 } else if cursed { dice_at(s, 4, 8) } else { dice_at(s, 6, 8) }
}

/// `a + b`, held at the largest `u16`.
pub open spec fn sat_u16(a: int, b: int) -> int {
    if a + b > 65535 { 65535 } else { a + b }
}

/// Whether `x` is in the range of `i32`.
pub open spec fn fits_i32(x: int) -> bool {
    i32::MIN <= x <= i32::MAX
}

/// `cur` with attribute `a` one higher, but not above its maximum in `max`.
pub open spec fn raise_one(cur: Attributes, max: Attributes, a: Attribute) -> Attributes {
    cur.with(a, min_i(cur.value(a) + 1, max.value(a) as int) as i8)
}

/// Every attribute one higher, but not above its maximum.
pub open spec fn raised(cur: Attributes, max: Attributes) -> Attributes {
    Attributes {
        strength: min_i(cur.strength + 1, max.strength as int) as i8,
        intelligence: min_i(cur.intelligence + 1, max.intelligence as int) as i8,
        wisdom: min_i(cur.wisdom + 1, max.wisdom as int) as i8,
        dexterity: min_i(cur.dexterity + 1, max.dexterity as int) as i8,
        constitution: min_i(cur.constitution + 1, max.constitution as int) as i8,
        charisma: min_i(cur.charisma + 1, max.charisma as int) as i8,
    }
}

/// The attribute raised by an unblessed potion of gain ability for a draw
/// `k` of `rn2(6)`.
pub open spec fn gain_attr(k: int) -> Attribute {
    if k == 0 {
        Attribute::Strength
    } else if k == 1 {
        Attribute::Dexterity
    } else if k == 2 {
        Attribute::Constitution
    } else if k == 3 {
        Attribute::Intelligence
    } else if k == 4 {
        Attribute::Wisdom
    } else {
        Attribute::Charisma
    }
}

/// The message of an unblessed potion of gain ability for a draw `k`.
pub open spec fn gain_msg(k: int) -> Seq<char> {
    if k == 0 {
        "You feel strong!"@
    } else if k == 1 {
        "You feel agile!"@
    } else if k == 2 {
        "You feel tough!"@
    } else if k == 3 {
        "You feel smart!"@
    } else if k == 4 {
        "You feel wise!"@
    } else {
        "You feel charismatic!"@
    }
}

/// Strength and constitution each one lower, held within `i8`.
pub open spec fn weakened(a: Attributes) -> Attributes {
    Attributes {
        strength: clamp_int(a.strength - 1, -128, 127) as i8,
        constitution: clamp_int(a.constitution - 1, -128, 127) as i8,
        ..a
    }
}

/// Energy gained from a drunk potion of gain energy.
pub open spec fn energy_gain(s: u64, blessed: bool) -> int {
    if blessed { dice_at(s, 4, 10) + 10 } else { dice_at(s, 3, 6) }
}

/// Hit points gained on a new experience level with constitution `con`.
pub open spec fn level_hp_gain(con: i8) -> int {
    5 + trunc_div(con as int, 3)
}

/// Maximum hit points gained from a blessed potion of full healing.
pub open spec fn full_healing_gain(hp_max: i32) -> int {
    4 + min_i(trunc_div(hp_max as int, 10), 10)
}

/// The hero is unchanged, the generator too, and the result is the one
/// message `m`.
pub open spec fn only_message(old: You, new: You, r: PotionResult, s: u64, s2: u64, m: Seq<char>) -> bool {
    &&& new == old
    &&& s2 == s
    &&& result_is(r, seq![m], false, 0)
}

/// What drinking a potion of kind `t` does: `old` and `new` are the hero
/// before and after, `r` the result, `s` and `s2` the generator's state before
/// and after.
pub open spec fn quaff_effect(t: PotionType, old: You, new: You, r: PotionResult, s: u64, s2: u64, blessed: bool,
    cursed: bool) -> bool {
    match t {
        PotionType::Healing => {
            let heal = healing_amount(s, blessed, cursed);
            let cure = old.blinded_timeout > 0 && !cursed;
            &&& new == (You { hp: min_i(old.hp + heal, old.hp_max as int) as i32,
                blinded_timeout: if cure { 0 } else { old.blinded_timeout }, ..old })
            &&& s2 == steps(s, healing_dice(blessed, cursed))
            &&& result_is(r, if cure {
                seq!["You feel better. (+"@ + int_str(heal) + " HP)"@, "Your vision clears."@]
            } else {
                seq!["You feel better. (+"@ + int_str(heal) + " HP)"@]
            }, false, 0)
        },
        PotionType::ExtraHealing => {
            let heal = extra_healing_amount(s, blessed, cursed);
            let cure_blind = old.blinded_timeout > 0 && !cursed;
            let cure_conf = old.confused_timeout > 0 && !cursed;
            let grow = blessed && old.hp_max < 500;
            let hp1 = min_i(old.hp + heal, old.hp_max as int);
            &&& new == (You { hp: (if grow { hp1 + 1 } else { hp1 }) as i32,
                hp_max: (if grow { old.hp_max + 1 } else { old.hp_max as int }) as i32,
                blinded_timeout: if cure_blind { 0 } else { old.blinded_timeout },
                confused_timeout: if cure_conf { 0 } else { old.confused_timeout }, ..old })
            &&& s2 == steps(s, healing_dice(blessed, cursed))
            &&& result_is(r, seq!["You feel much better. (+"@ + int_str(heal) + " HP)"@]
                + (if cure_blind { seq!["Your vision clears."@] } else { Seq::empty() })
                + (if cure_conf { seq!["Your confusion clears."@] } else { Seq::empty() }), false, 0)
        },
        PotionType::FullHealing => {
            let hp1 = if cursed {
                min_i(old.hp + trunc_div(old.hp_max as int, 2), old.hp_max as int)
            } else {
                old.hp_max as int
            };
            let grow = blessed && old.hp_max < 500;
            let gain = full_healing_gain(old.hp_max);
            let first = if cursed { "You feel somewhat better."@ } else { "You feel completely healed."@ };
            &&& new == (You { hp: (if grow { old.hp_max + gain } else { hp1 }) as i32,
                hp_max: (if grow { old.hp_max + gain } else { old.hp_max as int }) as i32,
                blinded_timeout: 0, confused_timeout: 0, stunned_timeout: 0, hallucinating_timeout: 0, ..old })
            &&& s2 == s
            &&& result_is(r, if grow {
                seq![first, "Your max HP increases by "@ + int_str(gain) + "!"@]
            } else {
                seq![first]
            }, false, 0)
        },
        PotionType::GainAbility => {
            let k = rn2_at(s, 6) as int;
            &&& new == (You { attr_current: if blessed {
                raised(old.attr_current, old.attr_max)
            } else {
                raise_one(old.attr_current, old.attr_max, gain_attr(k))
            }, ..old })
            &&& s2 == (if blessed { s } else { step(s) })
            &&& result_is(r, seq![if blessed { "You feel great!"@ } else { gain_msg(k) }], false, 0)
        },
        PotionType::Restore => {
            &&& new == (You { attr_current: old.attr_max, ..old })
            &&& s2 == s
            &&& result_is(r, seq![if blessed { "You feel like a new person!"@ } else { "You feel restored."@ }], false,
                0)
        },
        PotionType::Confusion => if blessed {
            &&& new == (You { confused_timeout: 0, ..old })
            &&& s2 == s
            &&& result_is(r, seq![if old.confused_timeout > 0 { "Your head feels clear."@ } else {
                "You feel mildly disoriented for a moment."@ }], false, 0)
        } else {
            &&& new == (You { confused_timeout: sat_u16(old.confused_timeout as int, dice_at(s, 3, 6)) as u16, ..old })
            &&& s2 == steps(s, 3)
            &&& result_is(r, seq!["Huh, what? Where am I?"@], false, 0)
        },
        PotionType::Blindness => if blessed {
            &&& new == (You { blinded_timeout: 0, ..old })
            &&& s2 == s
            &&& result_is(r, seq![if old.blinded_timeout > 0 { "Your vision clears."@ } else {
                "It looks dark for a moment."@ }], false, 0)
        } else {
            let d = if cursed { dice_at(s, 5, 50) } else { dice_at(s, 3, 25) };
            &&& new == (You { blinded_timeout: sat_u16(old.blinded_timeout as int, d) as u16, ..old })
            &&& s2 == steps(s, if cursed { 5 } else { 3 })
            &&& result_is(r, seq!["A cloud of darkness falls upon you."@], false, 0)
        },
        PotionType::Paralysis => if blessed {
            only_message(old, new, r, s, s2, "You stiffen momentarily."@)
        } else {
            let d = if cursed { dice_at(s, 3, 6) } else { dice_at(s, 2, 4) };
            &&& new == (You { paralyzed_timeout: sat_u16(old.paralyzed_timeout as int, d) as u16, ..old })
            &&& s2 == steps(s, if cursed { 3 } else { 2 })
            &&& result_is(r, seq!["Your limbs freeze!"@], false, 0)
        },
        PotionType::Speed => {
            let d = if blessed { dice_at(s, 10, 10) } else { dice_at(s, 5, 10) };
            &&& new == (You { properties: new.properties, ..old })
            &&& timeout_set(old.properties, new.properties, Property::Speed, d as u32)
            &&& s2 == steps(s, if blessed { 10 } else { 5 })
            &&& result_is(r, seq!["You feel yourself moving faster."@], false, 0)
        },
        PotionType::Levitation => {
            let d = if cursed { dice_at(s, 20, 10) } else if blessed { dice_at(s, 5, 10) } else { dice_at(s, 10, 10) };
            &&& new == (You { properties: new.properties, ..old })
            &&& timeout_set(old.properties, new.properties, Property::Levitation, d as u32)
            &&& s2 == steps(s, if cursed { 20 } else if blessed { 5 } else { 10 })
            &&& result_is(r, if cursed {
                seq!["You float into the air!"@, "You have no control over your levitation!"@]
            } else {
                seq!["You float into the air!"@]
            }, false, 0)
        },
        PotionType::Hallucination => {
            let d = if cursed { dice_at(s, 5, 50) } else { dice_at(s, 3, 25) };
            &&& new == (You { hallucinating_timeout: sat_u16(old.hallucinating_timeout as int, d) as u16, ..old })
            &&& s2 == steps(s, if cursed { 5 } else { 3 })
            &&& result_is(r, seq!["Oh wow! Everything seems so cosmic!"@], false, 0)
        },
        PotionType::Invisibility => {
            let d = if blessed { dice_at(s, 15, 10) } else { dice_at(s, 10, 10) };
            &&& new == (You { properties: new.properties, ..old })
            &&& timeout_set(old.properties, new.properties, Property::Invisibility, d as u32)
            &&& s2 == steps(s, if blessed { 15 } else { 10 })
            &&& result_is(r, seq!["Gee! All of a sudden, you can't see yourself."@], false, 0)
        },
        PotionType::SeeInvisible => {
            &&& new == (You { properties: new.properties, ..old })
            &&& (if blessed {
                intrinsic_granted(old.properties, new.properties, Property::SeeInvisible)
            } else {
                timeout_set(old.properties, new.properties, Property::SeeInvisible, 750)
            })
            &&& s2 == s
            &&& result_is(r, seq![if blessed { "You feel perceptive!"@ } else { "You can see the invisible."@ }], false,
                0)
        },
        PotionType::GainLevel => if cursed {
            &&& new == old
            &&& s2 == s
            &&& result_is(r, seq!["You rise up, through the ceiling!"@], false, 1)
        } else {
            let gain = level_hp_gain(old.attr_current.constitution);
            &&& new == (You { exp_level: (old.exp_level + 1) as i32, hp_max: (old.hp_max + gain) as i32,
                hp: (old.hp + gain) as i32, ..old })
            &&& s2 == s
            &&& result_is(r, seq!["Welcome to experience level "@ + int_str(old.exp_level + 1) + "!"@], false, 0)
        },
        PotionType::Enlightenment => {
            &&& new == old
            &&& s2 == s
            &&& result_is(r, seq!["You feel self-knowledgeable..."@, "You are at experience level "@ + int_str(
                old.exp_level as int) + " with "@ + int_str(old.hp as int) + " HP."@], false, 0)
        },
        PotionType::MonsterDetection => only_message(old, new, r, s, s2, "You sense the presence of monsters."@),
        PotionType::ObjectDetection => only_message(old, new, r, s, s2, "You sense the presence of objects."@),
        PotionType::GainEnergy => {
            let gain = energy_gain(s, blessed);
            let grow = blessed && old.energy_max < 500;
            &&& new == (You { energy: min_i(old.energy + gain, old.energy_max as int) as i32,
                energy_max: (if grow { old.energy_max + 1 } else { old.energy_max as int }) as i32, ..old })
            &&& s2 == steps(s, if blessed { 4 } else { 3 })
            &&& result_is(r, seq!["You feel magical energy! (+"@ + int_str(gain) + " Pw)"@], false, 0)
        },
        PotionType::Sleeping => if old.properties.holds(Property::SleepResistance) {
            only_message(old, new, r, s, s2, "You yawn."@)
        } else {
            &&& new == (You { sleeping_timeout: dice_at(s, 4, 6) as u16, ..old })
            &&& s2 == steps(s, 4)
            &&& result_is(r, seq!["You fall asleep!"@], false, 0)
        },
        PotionType::Polymorph => {
            let c = rnd_at(s, 3) - 1;
            &&& new == (You { attr_current: Attributes {
                strength: clamp_int(old.attr_current.strength + c, -128, 127) as i8,
                dexterity: clamp_int(old.attr_current.dexterity + c, -128, 127) as i8, ..old.attr_current },
                polymorph_timeout: (100 + rnd_at(step(s), 100)) as u32, ..old })
            &&& s2 == step(step(s))
            &&& result_is(r, seq!["You feel like a new person!"@], false, 0)
        },
        PotionType::Booze => {
            &&& new == (You { confused_timeout: sat_u16(old.confused_timeout as int, dice_at(s, 3, 6)) as u16,
                hp: min_i(old.hp + 1, old.hp_max as int) as i32, ..old })
            &&& s2 == steps(s, 3)
            &&& result_is(r, seq!["Ooph! This tastes like liquid fire!"@], false, 0)
        },
        PotionType::Sickness => if blessed {
            only_message(old, new, r, s, s2, "It tastes terrible."@)
        } else if old.properties.holds(Property::PoisonResistance) {
            only_message(old, new, r, s, s2, "It tastes terrible, but you resist!"@)
        } else {
            &&& new == (You { attr_current: weakened(old.attr_current), ..old })
            &&& s2 == s
            &&& result_is(r, seq!["You feel very sick."@], false, 0)
        },
        PotionType::FruitJuice => {
            &&& new == (You { nutrition: (old.nutrition + 50) as i32, ..old })
            &&& s2 == s
            &&& result_is(r, seq!["This tastes like fruit juice."@], false, 0)
        },
        PotionType::Acid => if old.properties.holds(Property::AcidResistance) {
            only_message(old, new, r, s, s2, "This tastes sour."@)
        } else {
            let d = dice_at(s, 2, 6);
            &&& new == (You { hp: (old.hp - d) as i32, ..old })
            &&& s2 == steps(s, 2)
            &&& result_is(r, seq!["This burns! You take "@ + int_str(d) + " acid damage!"@], old.hp - d <= 0, 0)
        },
        PotionType::Oil => {
            &&& new == (You { nutrition: (old.nutrition + 10) as i32, ..old })
            &&& s2 == s
            &&& result_is(r, seq!["That was smooth and greasy."@], false, 0)
        },
        PotionType::Water => if blessed {
            &&& new == (You { properties: new.properties, ..old })
            &&& intrinsic_removed(old.properties, new.properties, Property::Fumbling)
            &&& s2 == s
            &&& result_is(r, seq!["This feels blessed."@], false, 0)
        } else if cursed {
            &&& new == (You { hp: (old.hp - 1) as i32, ..old })
            &&& s2 == s
            &&& result_is(r, seq!["This water is foul!"@], false, 0)
        } else {
            only_message(old, new, r, s, s2, "This tastes like water."@)
        },
        PotionType::Poison => if blessed {
            only_message(old, new, r, s, s2, "This tastes terrible."@)
        } else if old.properties.holds(Property::PoisonResistance) {
            only_message(old, new, r, s, s2, "It tastes terrible, but you resist!"@)
        } else {
            let d = dice_at(s, 2, 6);
            &&& new == (You { hp: (old.hp - d) as i32, attr_current: weakened(old.attr_current), ..old })
            &&& s2 == steps(s, 2)
            &&& result_is(r, seq!["You feel very sick and weakened."@], old.hp - d <= 0, 0)
        },
    }
}

/// Drinking a potion of kind `t` does no arithmetic that overflows: the
/// inputs on which the game's own computation would leave the range of its
/// integers.
pub open spec fn quaff_safe(t: PotionType, p: You, s: u64, blessed: bool, cursed: bool) -> bool {
    match t {
        PotionType::Healing => fits_i32(p.hp + healing_amount(s, blessed, cursed)),
        PotionType::ExtraHealing => fits_i32(p.hp + extra_healing_amount(s, blessed, cursed)),
        PotionType::FullHealing => {
            &&& cursed ==> fits_i32(p.hp + trunc_div(p.hp_max as int, 2))
            &&& blessed && p.hp_max < 500 ==> fits_i32(p.hp_max + full_healing_gain(p.hp_max))
        },
        PotionType::GainAbility => if blessed {
            forall|a: Attribute| #[trigger] p.attr_current.value(a) < 127
        } else {
            p.attr_current.value(gain_attr(rn2_at(s, 6) as int)) < 127
        },
        PotionType::GainLevel => !cursed ==> {
            &&& fits_i32(p.exp_level + 1)
            &&& fits_i32(p.hp_max + level_hp_gain(p.attr_current.constitution))
            &&& fits_i32(p.hp + level_hp_gain(p.attr_current.constitution))
        },
        PotionType::GainEnergy => fits_i32(p.energy + energy_gain(s, blessed)),
        PotionType::Booze => fits_i32(p.hp + 1),
        PotionType::FruitJuice => fits_i32(p.nutrition + 50),
        PotionType::Oil => fits_i32(p.nutrition + 10),
        PotionType::Acid => !p.properties.holds(Property::AcidResistance) ==> fits_i32(p.hp - dice_at(s, 2, 6)),
        PotionType::Water => cursed ==> fits_i32(p.hp - 1),
        PotionType::Poison => !blessed && !p.properties.holds(Property::PoisonResistance) ==> fits_i32(
            p.hp - dice_at(s, 2, 6)),
        _ => true,
    }
}

/// Whether a status is blessed.
pub open spec fn blessed_buc(b: BucStatus) -> bool {
    b == BucStatus::Blessed
}

/// Whether a status is cursed.
pub open spec fn cursed_buc(b: BucStatus) -> bool {
    b == BucStatus::Cursed
}

/// A result reporting the one message `msg`, consumed and identified.
fn one_message(msg: &str) -> (r: PotionResult)
    ensures
        result_is(r, seq![msg@], false, 0),
{
    let mut r = PotionResult::new();
    say(&mut r, msg);
    assert(views(r.messages@) =~= seq![msg@]);
    r
}

/// A result reporting the message `msg`, built.
fn one_built_message(msg: String) -> (r: PotionResult)
    ensures
        result_is(r, seq![msg@], false, 0),
{
    let mut r = PotionResult::new();
    let ghost m = msg@;
    say_string(&mut r, msg);
    assert(views(r.messages@) =~= seq![m]);
    r
}

fn potion_healing(player: &mut You, blessed: bool, cursed: bool, rng: &mut GameRng) -> (result: PotionResult)
    requires
        quaff_safe(PotionType::Healing, *old(player), old(rng)@, blessed, cursed),
    ensures
        quaff_effect(PotionType::Healing, *old(player), *final(player), result, old(rng)@, final(rng)@, blessed, cursed),
{
    let mut result = PotionResult::new();
    let heal_amount: i32 = if blessed {
        rng.dice(8, 4) as i32 + 8
    } else if cursed {
        rng.dice(4, 4) as i32
    } else {
        rng.dice(6, 4) as i32
    };
    let h = player.hp + heal_amount;
    player.hp = if h < player.hp_max { h } else { player.hp_max };
    say_string(&mut result, text_num("You feel better. (+", heal_amount, " HP)"));
    let ghost m1 = views(result.messages@);
    assert(m1 =~= seq!["You feel better. (+"@ + int_str(heal_amount as int) + " HP)"@]);
    if player.blinded_timeout > 0 && !cursed {
        player.blinded_timeout = 0;
        say(&mut result, "Your vision clears.");
        assert(views(result.messages@) =~= seq![m1[0], "Your vision clears."@]);
    }
    result
}

fn potion_extra_healing(player: &mut You, blessed: bool, cursed: bool, rng: &mut GameRng) -> (result: PotionResult)
    requires
        quaff_safe(PotionType::ExtraHealing, *old(player), old(rng)@, blessed, cursed),
    ensures
        quaff_effect(PotionType::ExtraHealing, *old(player), *final(player), result, old(rng)@, final(rng)@, blessed,
            cursed),
{
    let mut result = PotionResult::new();
    let heal_amount: i32 = if blessed {
        rng.dice(8, 8) as i32 + 16
    } else if cursed {
        rng.dice(4, 8) as i32
    } else {
        rng.dice(6, 8) as i32
    };
    let h = player.hp + heal_amount;
    player.hp = if h < player.hp_max { h } else { player.hp_max };
    say_string(&mut result, text_num("You feel much better. (+", heal_amount, " HP)"));
    let ghost m1 = views(result.messages@);
    if player.blinded_timeout > 0 && !cursed {
        player.blinded_timeout = 0;
        say(&mut result, "Your vision clears.");
    }
    let ghost m2 = views(result.messages@);
    if player.confused_timeout > 0 && !cursed {
        player.confused_timeout = 0;
        say(&mut result, "Your confusion clears.");
    }
    proof {
        let cure_blind = old(player).blinded_timeout > 0 && !cursed;
        let cure_conf = old(player).confused_timeout > 0 && !cursed;
        assert(m1 =~= seq!["You feel much better. (+"@ + int_str(heal_amount as int) + " HP)"@]);
        assert(views(result.messages@) =~= m1 + (if cure_blind { seq!["Your vision clears."@] } else { Seq::empty() })
            + (if cure_conf { seq!["Your confusion clears."@] } else { Seq::empty() }));
    }
    if blessed && player.hp_max < 500 {
        player.hp_max = player.hp_max + 1;
        player.hp = player.hp + 1;
    }
    result
}

fn potion_full_healing(player: &mut You, blessed: bool, cursed: bool) -> (result: PotionResult)
    requires
        quaff_safe(PotionType::FullHealing, *old(player), 0, blessed, cursed),
    ensures
        forall|s: u64| quaff_effect(PotionType::FullHealing, *old(player), *final(player), result, s, s, blessed, cursed),
{
    let mut result = if cursed {
        let h = player.hp + div_trunc(player.hp_max, 2);
        player.hp = if h < player.hp_max { h } else { player.hp_max };
        one_message("You feel somewhat better.")
    } else {
        player.hp = player.hp_max;
        one_message("You feel completely healed.")
    };
    let ghost m1 = views(result.messages@);
    player.blinded_timeout = 0;
    player.confused_timeout = 0;
    player.stunned_timeout = 0;
    player.hallucinating_timeout = 0;
    if blessed && player.hp_max < 500 {
        let tenth = div_trunc(player.hp_max, 10);
        let gain = 4 + if tenth < 10 { tenth } else { 10 };
        player.hp_max = player.hp_max + gain;
        player.hp = player.hp_max;
        say_string(&mut result, text_num("Your max HP increases by ", gain, "!"));
        assert(views(result.messages@) =~= seq![m1[0], "Your max HP increases by "@ + int_str(gain as int) + "!"@]);
    }
    result
}

/// Raise attribute `a` by one, but not above its maximum.
fn raise_toward_max(cur: &mut Attributes, max: &Attributes, a: Attribute)
    requires
        old(cur).value(a) < 127,
    ensures
        *final(cur) == raise_one(*old(cur), *max, a),
{
    let v = cur.get(a) + 1;
    let m = max.get(a);
    cur.set(a, if v < m { v } else { m });
}

fn potion_gain_ability(player: &mut You, blessed: bool, rng: &mut GameRng) -> (result: PotionResult)
    requires
        quaff_safe(PotionType::GainAbility, *old(player), old(rng)@, blessed, false),
    ensures
        forall|c: bool| quaff_effect(PotionType::GainAbility, *old(player), *final(player), result, old(rng)@,
            final(rng)@, blessed, c),
{
    if blessed {
        let max = player.attr_max;
        proof {
            assert(player.attr_current.value(Attribute::Strength) < 127);
            assert(player.attr_current.value(Attribute::Dexterity) < 127);
            assert(player.attr_current.value(Attribute::Constitution) < 127);
            assert(player.attr_current.value(Attribute::Intelligence) < 127);
            assert(player.attr_current.value(Attribute::Wisdom) < 127);
            assert(player.attr_current.value(Attribute::Charisma) < 127);
        }
        raise_toward_max(&mut player.attr_current, &max, Attribute::Strength);
        raise_toward_max(&mut player.attr_current, &max, Attribute::Dexterity);
        raise_toward_max(&mut player.attr_current, &max, Attribute::Constitution);
        raise_toward_max(&mut player.attr_current, &max, Attribute::Intelligence);
        raise_toward_max(&mut player.attr_current, &max, Attribute::Wisdom);
        raise_toward_max(&mut player.attr_current, &max, Attribute::Charisma);
        one_message("You feel great!")
    } else {
        let stat = rng.rn2(6);
        let (attr, msg): (Attribute, &str) = if stat == 0 {
            (Attribute::Strength, "You feel strong!")
        } else if stat == 1 {
            (Attribute::Dexterity, "You feel agile!")
        } else if stat == 2 {
            (Attribute::Constitution, "You feel tough!")
        } else if stat == 3 {
            (Attribute::Intelligence, "You feel smart!")
        } else if stat == 4 {
            (Attribute::Wisdom, "You feel wise!")
        } else {
            (Attribute::Charisma, "You feel charismatic!")
        };
        let max = player.attr_max;
        raise_toward_max(&mut player.attr_current, &max, attr);
        one_message(msg)
    }
}

fn potion_restore(player: &mut You, blessed: bool) -> (result: PotionResult)
    ensures
        forall|s: u64, c: bool| quaff_effect(PotionType::Restore, *old(player), *final(player), result, s, s, blessed, c),
{
    player.attr_current = player.attr_max;
    if blessed {
        one_message("You feel like a new person!")
    } else {
        one_message("You feel restored.")
    }
}

fn potion_confusion(player: &mut You, blessed: bool, rng: &mut GameRng) -> (result: PotionResult)
    ensures
        forall|c: bool| quaff_effect(PotionType::Confusion, *old(player), *final(player), result, old(rng)@,
            final(rng)@, blessed, c),
{
    if blessed {
        if player.confused_timeout > 0 {
            player.confused_timeout = 0;
            one_message("Your head feels clear.")
        } else {
            one_message("You feel mildly disoriented for a moment.")
        }
    } else {
        let duration = rng.dice(3, 6) as u16;
        player.confused_timeout = player.confused_timeout.saturating_add(duration);
        one_message("Huh, what? Where am I?")
    }
}

fn potion_blindness(player: &mut You, blessed: bool, cursed: bool, rng: &mut GameRng) -> (result: PotionResult)
    ensures
        quaff_effect(PotionType::Blindness, *old(player), *final(player), result, old(rng)@, final(rng)@, blessed,
            cursed),
{
    if blessed {
        if player.blinded_timeout > 0 {
            player.blinded_timeout = 0;
            one_message("Your vision clears.")
        } else {
            one_message("It looks dark for a moment.")
        }
    } else {
        let duration = if cursed { rng.dice(5, 50) as u16 } else { rng.dice(3, 25) as u16 };
        player.blinded_timeout = player.blinded_timeout.saturating_add(duration);
        one_message("A cloud of darkness falls upon you.")
    }
}

fn potion_paralysis(player: &mut You, blessed: bool, cursed: bool, rng: &mut GameRng) -> (result: PotionResult)
    ensures
        quaff_effect(PotionType::Paralysis, *old(player), *final(player), result, old(rng)@, final(rng)@, blessed,
            cursed),
{
    if blessed {
        one_message("You stiffen momentarily.")
    } else {
        let duration = if cursed { rng.dice(3, 6) as u16 } else { rng.dice(2, 4) as u16 };
        player.paralyzed_timeout = player.paralyzed_timeout.saturating_add(duration);
        one_message("Your limbs freeze!")
    }
}

fn potion_speed(player: &mut You, blessed: bool, rng: &mut GameRng) -> (result: PotionResult)
    requires
        old(player).wf(),
    ensures
        forall|c: bool| quaff_effect(PotionType::Speed, *old(player), *final(player), result, old(rng)@, final(rng)@,
            blessed, c),
{
    let duration = if blessed { rng.dice(10, 10) } else { rng.dice(5, 10) };
    player.properties.set_timeout(Property::Speed, duration);
    one_message("You feel yourself moving faster.")
}

fn potion_levitation(player: &mut You, blessed: bool, cursed: bool, rng: &mut GameRng) -> (result: PotionResult)
    requires
        old(player).wf(),
    ensures
        quaff_effect(PotionType::Levitation, *old(player), *final(player), result, old(rng)@, final(rng)@, blessed,
            cursed),
{
    let duration = if cursed { rng.dice(20, 10) } else if blessed { rng.dice(5, 10) } else { rng.dice(10, 10) };
    player.properties.set_timeout(Property::Levitation, duration);
    let mut result = one_message("You float into the air!");
    if cursed {
        say(&mut result, "You have no control over your levitation!");
        assert(views(result.messages@) =~= seq!["You float into the air!"@,
            "You have no control over your levitation!"@]);
    }
    result
}

fn potion_hallucination(player: &mut You, cursed: bool, rng: &mut GameRng) -> (result: PotionResult)
    ensures
        forall|b: bool| quaff_effect(PotionType::Hallucination, *old(player), *final(player), result, old(rng)@,
            final(rng)@, b, cursed),
{
    let duration = if cursed { rng.dice(5, 50) as u16 } else { rng.dice(3, 25) as u16 };
    player.hallucinating_timeout = player.hallucinating_timeout.saturating_add(duration);
    one_message("Oh wow! Everything seems so cosmic!")
}

fn potion_invisibility(player: &mut You, blessed: bool, rng: &mut GameRng) -> (result: PotionResult)
    requires
        old(player).wf(),
    ensures
        forall|c: bool| quaff_effect(PotionType::Invisibility, *old(player), *final(player), result, old(rng)@,
            final(rng)@, blessed, c),
{
    let duration = if blessed { rng.dice(15, 10) } else { rng.dice(10, 10) };
    player.properties.set_timeout(Property::Invisibility, duration);
    one_message("Gee! All of a sudden, you can't see yourself.")
}

fn potion_see_invisible(player: &mut You, blessed: bool) -> (result: PotionResult)
    requires
        old(player).wf(),
    ensures
        forall|s: u64, c: bool| quaff_effect(PotionType::SeeInvisible, *old(player), *final(player), result, s, s,
            blessed, c),
{
    if blessed {
        player.properties.grant_intrinsic(Property::SeeInvisible);
        one_message("You feel perceptive!")
    } else {
        player.properties.set_timeout(Property::SeeInvisible, 750);
        one_message("You can see the invisible.")
    }
}

fn potion_gain_level(player: &mut You, cursed: bool) -> (result: PotionResult)
    requires
        quaff_safe(PotionType::GainLevel, *old(player), 0, false, cursed),
    ensures
        forall|s: u64, b: bool| quaff_effect(PotionType::GainLevel, *old(player), *final(player), result, s, s, b,
            cursed),
{
    if cursed {
        let mut result = one_message("You rise up, through the ceiling!");
        result.level_change = 1;
        result
    } else {
        player.exp_level = player.exp_level + 1;
        let hp_gain = 5 + div_trunc(player.attr_current.get(Attribute::Constitution) as i32, 3);
        player.hp_max = player.hp_max + hp_gain;
        player.hp = player.hp + hp_gain;
        one_built_message(text_num("Welcome to experience level ", player.exp_level, "!"))
    }
}

fn potion_enlightenment(player: &You) -> (result: PotionResult)
    ensures
        forall|s: u64, b: bool, c: bool| quaff_effect(PotionType::Enlightenment, *player, *player, result, s, s, b, c),
{
    let mut result = one_message("You feel self-knowledgeable...");
    let mut line = String::from_str("You are at experience level ");
    push_int(&mut line, player.exp_level as i64);
    line.append(" with ");
    push_int(&mut line, player.hp as i64);
    line.append(" HP.");
    let ghost l = line@;
    say_string(&mut result, line);
    assert(views(result.messages@) =~= seq!["You feel self-knowledgeable..."@, l]);
    result
}

fn potion_monster_detection(player: &You) -> (result: PotionResult)
    ensures
        forall|s: u64, b: bool, c: bool| quaff_effect(PotionType::MonsterDetection, *player, *player, result, s, s, b, c),
{
    one_message("You sense the presence of monsters.")
}

fn potion_object_detection(player: &You) -> (result: PotionResult)
    ensures
        forall|s: u64, b: bool, c: bool| quaff_effect(PotionType::ObjectDetection, *player, *player, result, s, s, b, c),
{
    one_message("You sense the presence of objects.")
}

fn potion_gain_energy(player: &mut You, blessed: bool, rng: &mut GameRng) -> (result: PotionResult)
    requires
        quaff_safe(PotionType::GainEnergy, *old(player), old(rng)@, blessed, false),
    ensures
        forall|c: bool| quaff_effect(PotionType::GainEnergy, *old(player), *final(player), result, old(rng)@,
            final(rng)@, blessed, c),
{
    let gain: i32 = if blessed { rng.dice(4, 10) as i32 + 10 } else { rng.dice(3, 6) as i32 };
    let e = player.energy + gain;
    player.energy = if e < player.energy_max { e } else { player.energy_max };
    if blessed && player.energy_max < 500 {
        player.energy_max = player.energy_max + 1;
    }
    one_built_message(text_num("You feel magical energy! (+", gain, " Pw)"))
}

fn potion_sleeping(player: &mut You, rng: &mut GameRng) -> (result: PotionResult)
    requires
        old(player).wf(),
    ensures
        forall|b: bool, c: bool| quaff_effect(PotionType::Sleeping, *old(player), *final(player), result, old(rng)@,
            final(rng)@, b, c),
{
    if player.properties.has(Property::SleepResistance) {
        one_message("You yawn.")
    } else {
        player.sleeping_timeout = rng.dice(4, 6) as u16;
        one_message("You fall asleep!")
    }
}

fn potion_polymorph(player: &mut You, rng: &mut GameRng) -> (result: PotionResult)
    ensures
        forall|b: bool, c: bool| quaff_effect(PotionType::Polymorph, *old(player), *final(player), result, old(rng)@,
            final(rng)@, b, c),
{
    let result = one_message("You feel like a new person!");
    let stat_change: i8 = rng.rnd(3) as i8 - 1;
    player.attr_current.modify(Attribute::Strength, stat_change);
    player.attr_current.modify(Attribute::Dexterity, stat_change);
    player.polymorph_timeout = 100 + rng.rnd(100);
    result
}

fn potion_booze(player: &mut You, rng: &mut GameRng) -> (result: PotionResult)
    requires
        quaff_safe(PotionType::Booze, *old(player), old(rng)@, false, false),
    ensures
        forall|b: bool, c: bool| quaff_effect(PotionType::Booze, *old(player), *final(player), result, old(rng)@,
            final(rng)@, b, c),
{
    let confusion = rng.dice(3, 6) as u16;
    player.confused_timeout = player.confused_timeout.saturating_add(confusion);
    let h = player.hp + 1;
    player.hp = if h < player.hp_max { h } else { player.hp_max };
    one_message("Ooph! This tastes like liquid fire!")
}

fn potion_sickness(player: &mut You, blessed: bool) -> (result: PotionResult)
    requires
        old(player).wf(),
    ensures
        forall|s: u64, c: bool| quaff_effect(PotionType::Sickness, *old(player), *final(player), result, s, s,
            blessed, c),
{
    if blessed {
        one_message("It tastes terrible.")
    } else if player.properties.has(Property::PoisonResistance) {
        one_message("It tastes terrible, but you resist!")
    } else {
        player.attr_current.modify(Attribute::Constitution, -1);
        player.attr_current.modify(Attribute::Strength, -1);
        one_message("You feel very sick.")
    }
}

fn potion_fruit_juice(player: &mut You) -> (result: PotionResult)
    requires
        quaff_safe(PotionType::FruitJuice, *old(player), 0, false, false),
    ensures
        forall|s: u64, b: bool, c: bool| quaff_effect(PotionType::FruitJuice, *old(player), *final(player), result, s,
            s, b, c),
{
    player.nutrition = player.nutrition + 50;
    one_message("This tastes like fruit juice.")
}

fn potion_acid(player: &mut You, rng: &mut GameRng) -> (result: PotionResult)
    requires
        old(player).wf(),
        quaff_safe(PotionType::Acid, *old(player), old(rng)@, false, false),
    ensures
        forall|b: bool, c: bool| quaff_effect(PotionType::Acid, *old(player), *final(player), result, old(rng)@,
            final(rng)@, b, c),
{
    if player.properties.has(Property::AcidResistance) {
        one_message("This tastes sour.")
    } else {
        let damage = rng.dice(2, 6) as i32;
        player.hp = player.hp - damage;
        let mut result = one_built_message(text_num("This burns! You take ", damage, " acid damage!"));
        result.player_died = player.hp <= 0;
        result
    }
}

fn potion_oil(player: &mut You) -> (result: PotionResult)
    requires
        quaff_safe(PotionType::Oil, *old(player), 0, false, false),
    ensures
        forall|s: u64, b: bool, c: bool| quaff_effect(PotionType::Oil, *old(player), *final(player), result, s, s, b,
            c),
{
    player.nutrition = player.nutrition + 10;
    one_message("That was smooth and greasy.")
}

fn potion_water(player: &mut You, buc: &BucStatus) -> (result: PotionResult)
    requires
        old(player).wf(),
        quaff_safe(PotionType::Water, *old(player), 0, blessed_buc(*buc), cursed_buc(*buc)),
    ensures
        forall|s: u64| #[trigger] quaff_effect(PotionType::Water, *old(player), *final(player), result, s, s,
            blessed_buc(*buc), cursed_buc(*buc)),
{
    match buc {
        BucStatus::Blessed => {
            player.properties.remove_intrinsic(Property::Fumbling);
            one_message("This feels blessed.")
        },
        BucStatus::Cursed => {
            player.hp = player.hp - 1;
            one_message("This water is foul!")
        },
        BucStatus::Uncursed => one_message("This tastes like water."),
    }
}

fn potion_poison(player: &mut You, blessed: bool, rng: &mut GameRng) -> (result: PotionResult)
    requires
        old(player).wf(),
        quaff_safe(PotionType::Poison, *old(player), old(rng)@, blessed, false),
    ensures
        forall|c: bool| quaff_effect(PotionType::Poison, *old(player), *final(player), result, old(rng)@, final(rng)@,
            blessed, c),
{
    if blessed {
        one_message("This tastes terrible.")
    } else if player.properties.has(Property::PoisonResistance) {
        one_message("It tastes terrible, but you resist!")
    } else {
        let damage = rng.dice(2, 6) as i32;
        player.hp = player.hp - damage;
        player.attr_current.modify(Attribute::Constitution, -1);
        player.attr_current.modify(Attribute::Strength, -1);
        let mut result = one_message("You feel very sick and weakened.");
        result.player_died = player.hp <= 0;
        result
    }
}

/// Drink a potion: what it does to the hero, by its kind and whether it is
/// blessed or cursed. An object that is no potion does nothing.
pub fn quaff_potion(potion: &Object, player: &mut You, rng: &mut GameRng) -> (result: PotionResult)
    requires
        old(player).wf(),
        potion_of(potion.object_type as int) matches Some(t) ==> quaff_safe(t, *old(player), old(rng)@, blessed_buc(
            potion.buc), cursed_buc(potion.buc)),
    ensures
        final(player).wf(),
        match potion_of(potion.object_type as int) {
            None => {
                &&& *final(player) == *old(player)
                &&& final(rng)@ == old(rng)@
                &&& result_is(result, seq!["That's not a potion!"@], false, 0)
            },
            Some(t) => quaff_effect(t, *old(player), *final(player), result, old(rng)@, final(rng)@, blessed_buc(
                potion.buc), cursed_buc(potion.buc)),
        },
{
    let ptype = match PotionType::from_object_type(potion.object_type) {
        Some(t) => t,
        None => {
            let r = PotionResult::new().with_message("That's not a potion!");
            assert(views(r.messages@) =~= seq!["That's not a potion!"@]);
            return r;
        },
    };
    let blessed = potion.is_blessed();
    let cursed = potion.is_cursed();
    let result = match ptype {
        PotionType::Healing => potion_healing(player, blessed, cursed, rng),
        PotionType::ExtraHealing => potion_extra_healing(player, blessed, cursed, rng),
        PotionType::FullHealing => potion_full_healing(player, blessed, cursed),
        PotionType::GainAbility => potion_gain_ability(player, blessed, rng),
        PotionType::Restore => potion_restore(player, blessed),
        PotionType::Confusion => potion_confusion(player, blessed, rng),
        PotionType::Blindness => potion_blindness(player, blessed, cursed, rng),
        PotionType::Paralysis => potion_paralysis(player, blessed, cursed, rng),
        PotionType::Speed => potion_speed(player, blessed, rng),
        PotionType::Levitation => potion_levitation(player, blessed, cursed, rng),
        PotionType::Hallucination => potion_hallucination(player, cursed, rng),
        PotionType::Invisibility => potion_invisibility(player, blessed, rng),
        PotionType::SeeInvisible => potion_see_invisible(player, blessed),
        PotionType::GainLevel => potion_gain_level(player, cursed),
        PotionType::Enlightenment => potion_enlightenment(player),
        PotionType::MonsterDetection => potion_monster_detection(player),
        PotionType::ObjectDetection => potion_object_detection(player),
        PotionType::GainEnergy => potion_gain_energy(player, blessed, rng),
        PotionType::Sleeping => potion_sleeping(player, rng),
        PotionType::Polymorph => potion_polymorph(player, rng),
        PotionType::Booze => potion_booze(player, rng),
        PotionType::Sickness => potion_sickness(player, blessed),
        PotionType::FruitJuice => potion_fruit_juice(player),
        PotionType::Acid => potion_acid(player, rng),
        PotionType::Oil => potion_oil(player),
        PotionType::Water => potion_water(player, &potion.buc),
        PotionType::Poison => potion_poison(player, blessed, rng),
    };
    proof {
        lemma_quaff_keeps_wf(ptype, *old(player), *player, result, old(rng)@, rng@, blessed, cursed);
    }
    result
}

/// Drinking keeps the property tables complete.
pub proof fn lemma_quaff_keeps_wf(t: PotionType, old: You, new: You, r: PotionResult, s: u64, s2: u64, blessed: bool,
    cursed: bool)
    requires
        old.wf(),
        quaff_effect(t, old, new, r, s, s2, blessed, cursed),
    ensures
        new.wf(),
{
}

/// Result of a thrown potion hitting someone.
#[derive(Debug, Clone)]
pub struct PotionHitResult {
    pub messages: Vec<String>,
    /// Damage dealt to the target.
    pub damage: i32,
    /// Whether the bottle broke.
    pub broke: bool,
    /// Names of effects for the caller to apply.
    pub effects_applied: Vec<String>,
    /// Whether the hero was the target.
    pub hit_player: bool,
    /// Whether the target died.
    pub player_died: bool,
}

impl PotionHitResult {
    /// No messages or effects, no damage; the bottle broke.
    pub fn new() -> (r: Self)
        ensures
            r.messages@.len() == 0 && r.effects_applied@.len() == 0,
            r.damage == 0 && r.broke && !r.hit_player && !r.player_died,
    {
        PotionHitResult {
            messages: Vec::new(),
            damage: 0,
            broke: true,
            effects_applied: Vec::new(),
            hit_player: false,
            player_died: false,
        }
    }

    /// The result with a message added.
    pub fn with_message(self, msg: &str) -> (r: Self)
        ensures
            views(r.messages@) == views(self.messages@).push(msg@),
            views(r.effects_applied@) == views(self.effects_applied@),
            r.damage == self.damage && r.broke == self.broke,
            r.hit_player == self.hit_player && r.player_died == self.player_died,
    {
        let mut r = self;
        let ghost before = r.messages@;
        r.messages.push(String::from_str(msg));
        assert(views(r.messages@) =~= views(before).push(msg@));
        r
    }
}

impl Default for PotionHitResult {
    fn default() -> (r: Self)
        ensures
            r.messages@.len() == 0 && r.effects_applied@.len() == 0,
            r.damage == 0 && r.broke && !r.hit_player && !r.player_died,
    {
        Self::new()
    }
}

/// A hit result reporting exactly `msgs` and `effects` with the given
/// damage, target and death; the bottle broke.
pub open spec fn hit_is(r: PotionHitResult, msgs: Seq<Seq<char>>, damage: int, effects: Seq<Seq<char>>,
    hit_player: bool, died: bool) -> bool {
    &&& views(r.messages@) == msgs
    &&& r.damage == damage
    &&& views(r.effects_applied@) == effects
    &&& r.broke
    &&& r.hit_player == hit_player
    &&& r.player_died == died
}

/// The message of a bottle breaking on the hero's head.
pub open spec fn head_crash() -> Seq<char> {
    "The bottle crashes on your head and breaks into shards."@
}

/// The hero is unchanged and the hit reports the crash, then `more`, with
/// damage `d` and effects `effects`.
pub open spec fn splash_only(old: You, new: You, r: PotionHitResult, d: int, more: Seq<Seq<char>>,
    effects: Seq<Seq<char>>) -> bool {
    &&& new == old
    &&& hit_is(r, seq![head_crash()] + more, d, effects, true, false)
}

/// Hit points a thrown healing potion of kind `t` restores to the hero, with
/// the generator in state `s`.
pub open spec fn splash_heal(t: PotionType, p: You, s: u64) -> int {
    if t == PotionType::FullHealing {
        p.hp_max - p.hp
    } else if t == PotionType::ExtraHealing {
        dice_at(s, 6, 8)
    } else {
        dice_at(s, 6, 4)
    }
}

/// The word after `This burns` for acid of a blessing.
pub open spec fn burn_degree(blessed: bool, cursed: bool) -> Seq<char> {
    if blessed { " a little"@ } else if cursed { " a lot"@ } else { Seq::empty() }
}

/// What a potion of kind `t` thrown at the hero does: `old` and `new` are the
/// hero before and after, `r` the result, `s` and `s2` the generator's state
/// before and after, `lit` whether the potion burns.
pub open spec fn splash_effect(t: PotionType, old: You, new: You, r: PotionHitResult, s: u64, s2: u64,
    blessed: bool, cursed: bool, lit: bool) -> bool {
    let d0 = rnd_at(s, 2);
    let s1 = step(s);
    match t {
        PotionType::Oil => if lit && !old.properties.holds(Property::FireResistance) {
            &&& s2 == steps(s1, 3)
            &&& splash_only(old, new, r, dice_at(s1, 3, 6), seq!["The burning oil splashes all over you!"@],
                seq!["burning_oil"@])
        } else {
            &&& s2 == s1
            &&& splash_only(old, new, r, d0, if lit { seq!["The burning oil splashes all over you!"@] } else {
                Seq::empty() }, Seq::empty())
        },
        PotionType::Polymorph => {
            &&& s2 == s1
            &&& splash_only(old, new, r, d0, seq!["You feel a little strange!"@],
                if old.properties.holds(Property::Unchanging) { Seq::empty() } else { seq!["polymorph"@] })
        },
        PotionType::Acid => if old.properties.holds(Property::AcidResistance) {
            &&& s2 == s1
            &&& splash_only(old, new, r, d0, Seq::empty(), Seq::empty())
        } else {
            let nd: nat = if cursed { 2 } else { 1 };
            let sides: u32 = if blessed { 4 } else { 8 };
            &&& s2 == steps(s1, nd)
            &&& splash_only(old, new, r, dice_at(s1, nd, sides), seq!["This burns"@ + burn_degree(blessed, cursed)
                + "!"@], Seq::empty())
        },
        PotionType::Healing | PotionType::ExtraHealing | PotionType::FullHealing => {
            let cure = (t == PotionType::FullHealing || (t == PotionType::ExtraHealing && !cursed) || blessed)
                && old.blinded_timeout > 0;
            &&& s2 == (if t == PotionType::FullHealing { s1 } else { steps(s1, 6) })
            &&& new == (You { hp: min_i(old.hp + splash_heal(t, old, s1), old.hp_max as int) as i32,
                blinded_timeout: if cure { 0 } else { old.blinded_timeout }, ..old })
            &&& hit_is(r, seq![head_crash(), "You feel better."@] + (if cure { seq!["Your vision clears."@] } else {
                Seq::empty() }), d0, Seq::empty(), true, false)
        },
        PotionType::Sleeping => if old.properties.holds(Property::SleepResistance) {
            &&& s2 == s1
            &&& splash_only(old, new, r, d0, Seq::empty(), Seq::empty())
        } else {
            &&& s2 == step(s1)
            &&& new == (You { sleeping_timeout: rnd_at(s1, 12) as u16, ..old })
            &&& hit_is(r, seq![head_crash(), "You fall asleep!"@], d0, Seq::empty(), true, false)
        },
        PotionType::Paralysis => if old.properties.holds(Property::FreeAction) {
            &&& s2 == s1
            &&& splash_only(old, new, r, d0, seq!["You stiffen momentarily."@], Seq::empty())
        } else {
            &&& s2 == step(s1)
            &&& new == (You { paralyzed_timeout: sat_u16(old.paralyzed_timeout as int, rnd_at(s1, 25)) as u16, ..old })
            &&& hit_is(r, seq![head_crash(), "Your limbs freeze!"@], d0, Seq::empty(), true, false)
        },
        PotionType::Confusion | PotionType::Booze => {
            &&& s2 == step(s1)
            &&& new == (You { confused_timeout: sat_u16(old.confused_timeout as int, rnd_at(s1, 5)) as u16, ..old })
            &&& hit_is(r, seq![head_crash(), "You feel somewhat dizzy."@], d0, Seq::empty(), true, false)
        },
        PotionType::Blindness => {
            &&& s2 == step(s1)
            &&& new == (You { blinded_timeout: sat_u16(old.blinded_timeout as int, 64 + rn2_at(s1, 32)) as u16, ..old })
            &&& hit_is(r, seq![head_crash(), "It suddenly gets dark."@], d0, Seq::empty(), true, false)
        },
        PotionType::Speed => {
            &&& s2 == step(s1)
            &&& new == (You { properties: new.properties, ..old })
            &&& timeout_set(old.properties, new.properties, Property::Speed, rnd_at(s1, 5) as u32)
            &&& hit_is(r, seq![head_crash(), "Your knees seem more flexible now."@], d0, Seq::empty(), true, false)
        },
        PotionType::Invisibility => {
            &&& s2 == step(s1)
            &&& new == (You { properties: new.properties, ..old })
            &&& timeout_set(old.properties, new.properties, Property::Invisibility, (rnd_at(s1, 15) + 31) as u32)
            &&& hit_is(r, seq![head_crash(), "For an instant you couldn't see yourself."@], d0, Seq::empty(), true,
                false)
        },
        PotionType::Water => {
            &&& s2 == s1
            &&& splash_only(old, new, r, d0, if blessed { seq!["You feel a sense of purity."@] } else if cursed {
                seq!["You feel contaminated."@] } else { Seq::empty() }, Seq::empty())
        },
        PotionType::Sickness => if old.properties.holds(Property::PoisonResistance) {
            &&& s2 == s1
            &&& splash_only(old, new, r, d0, Seq::empty(), Seq::empty())
        } else {
            let hp2 = old.hp - (if old.hp > 2 { old.hp / 2 } else { 1 });
            &&& s2 == s1
            &&& new == (You { hp: hp2 as i32, ..old })
            &&& hit_is(r, seq![head_crash(), "You feel rather ill."@], d0, Seq::empty(), true, hp2 <= 0)
        },
        _ => {
            &&& s2 == s1
            &&& splash_only(old, new, r, d0, Seq::empty(), Seq::empty())
        },
    }
}

/// A potion of kind `t` thrown at the hero does no arithmetic that
/// overflows.
pub open spec fn splash_safe(t: PotionType, p: You, s: u64) -> bool {
    match t {
        PotionType::Healing | PotionType::ExtraHealing => fits_i32(p.hp + splash_heal(t, p, step(s))),
        PotionType::FullHealing => fits_i32(p.hp_max - p.hp),
        PotionType::Sickness => p.hp > i32::MIN,
        _ => true,
    }
}

/// Append a literal message to a hit result.
fn hit_say(r: &mut PotionHitResult, msg: &str)
    ensures
        views(final(r).messages@) == views(old(r).messages@).push(msg@),
        final(r).effects_applied@ == old(r).effects_applied@,
        final(r).damage == old(r).damage && final(r).broke == old(r).broke,
        final(r).hit_player == old(r).hit_player && final(r).player_died == old(r).player_died,
{
    push_text(&mut r.messages, msg);
}

/// Append an effect name to a hit result.
fn hit_effect(r: &mut PotionHitResult, name: &str)
    ensures
        views(final(r).effects_applied@) == views(old(r).effects_applied@).push(name@),
        final(r).messages@ == old(r).messages@,
        final(r).damage == old(r).damage && final(r).broke == old(r).broke,
        final(r).hit_player == old(r).hit_player && final(r).player_died == old(r).player_died,
{
    push_text(&mut r.effects_applied, name);
}

/// A thrown potion hits the hero: the bottle breaks on the hero's head, and
/// the potion acts by its kind. An object that is no potion only crashes.
pub fn potionhit_player(potion: &Object, player: &mut You, rng: &mut GameRng) -> (result: PotionHitResult)
    requires
        old(player).wf(),
        potion_of(potion.object_type as int) matches Some(t) ==> splash_safe(t, *old(player), old(rng)@),
    ensures
        final(player).wf(),
        match potion_of(potion.object_type as int) {
            None => {
                &&& *final(player) == *old(player)
                &&& final(rng)@ == old(rng)@
                &&& hit_is(result, seq!["The potion crashes but nothing happens."@], 0, Seq::empty(), false, false)
            },
            Some(t) => splash_effect(t, *old(player), *final(player), result, old(rng)@, final(rng)@, blessed_buc(
                potion.buc), cursed_buc(potion.buc), potion.lit),
        },
{
    let mut result = PotionHitResult::new();
    let ptype = match PotionType::from_object_type(potion.object_type) {
        Some(t) => t,
        None => {
            let r = result.with_message("The potion crashes but nothing happens.");
            assert(views(r.messages@) =~= seq!["The potion crashes but nothing happens."@]);
            assert(views(r.effects_applied@) =~= Seq::<Seq<char>>::empty());
            return r;
        },
    };
    result.hit_player = true;
    result.damage = rng.rnd(2) as i32;
    hit_say(&mut result, "The bottle crashes on your head and breaks into shards.");
    proof {
        assert(views(result.messages@) =~= seq![head_crash()]);
        assert(views(result.effects_applied@) =~= Seq::<Seq<char>>::empty());
    }
    let ghost m0 = views(result.messages@);
    let ghost s1 = rng@;
    let blessed = potion.is_blessed();
    let cursed = potion.is_cursed();
    match ptype {
        PotionType::Oil => {
            if potion.is_lit() {
                hit_say(&mut result, "The burning oil splashes all over you!");
                if !player.properties.has(Property::FireResistance) {
                    result.damage = rng.dice(3, 6) as i32;
                    hit_effect(&mut result, "burning_oil");
                    assert(views(result.effects_applied@) =~= seq!["burning_oil"@]);
                }
                assert(views(result.messages@) =~= m0 + seq!["The burning oil splashes all over you!"@]);
            } else {
                assert(views(result.messages@) =~= m0 + Seq::<Seq<char>>::empty());
            }
        },
        PotionType::Polymorph => {
            hit_say(&mut result, "You feel a little strange!");
            if !player.properties.has(Property::Unchanging) {
                hit_effect(&mut result, "polymorph");
                assert(views(result.effects_applied@) =~= seq!["polymorph"@]);
            }
            assert(views(result.messages@) =~= m0 + seq!["You feel a little strange!"@]);
        },
        PotionType::Acid => {
            if !player.properties.has(Property::AcidResistance) {
                let nd: u32 = if cursed { 2 } else { 1 };
                let nsides: u32 = if blessed { 4 } else { 8 };
                result.damage = rng.dice(nd, nsides) as i32;
                let degree: &str = if blessed { " a little" } else if cursed { " a lot" } else { "" };
                let mut line = String::from_str("This burns");
                line.append(degree);
                line.append("!");
                let ghost l = line@;
                let ghost before = result.messages@;
                result.messages.push(line);
                proof {
                    reveal_strlit("");
                    assert(views(result.messages@) =~= views(before).push(l));
                    assert(views(result.messages@) =~= m0 + seq!["This burns"@ + burn_degree(blessed, cursed)
                        + "!"@]);
                }
            } else {
                assert(views(result.messages@) =~= m0 + Seq::<Seq<char>>::empty());
            }
        },
        PotionType::Healing | PotionType::ExtraHealing | PotionType::FullHealing => {
            let heal: i32 = match ptype {
                PotionType::FullHealing => player.hp_max - player.hp,
                PotionType::ExtraHealing => rng.dice(6, 8) as i32,
                _ => rng.dice(6, 4) as i32,
            };
            let h = player.hp + heal;
            player.hp = if h < player.hp_max { h } else { player.hp_max };
            hit_say(&mut result, "You feel better.");
            let ghost m1 = views(result.messages@);
            let cureblind = matches!(ptype, PotionType::FullHealing) || (matches!(ptype, PotionType::ExtraHealing)
                && !cursed) || blessed;
            if cureblind && player.blinded_timeout > 0 {
                player.blinded_timeout = 0;
                hit_say(&mut result, "Your vision clears.");
                assert(views(result.messages@) =~= seq![head_crash(), "You feel better."@] + seq![
                    "Your vision clears."@]);
            } else {
                assert(views(result.messages@) =~= seq![head_crash(), "You feel better."@] + Seq::<
                    Seq<char>>::empty());
            }
        },
        PotionType::Sleeping => {
            if !player.properties.has(Property::SleepResistance) {
                player.sleeping_timeout = rng.rnd(12) as u16;
                hit_say(&mut result, "You fall asleep!");
                assert(views(result.messages@) =~= seq![head_crash(), "You fall asleep!"@]);
            } else {
                assert(views(result.messages@) =~= m0 + Seq::<Seq<char>>::empty());
            }
        },
        PotionType::Paralysis => {
            if !player.properties.has(Property::FreeAction) {
                player.paralyzed_timeout = player.paralyzed_timeout.saturating_add(rng.rnd(25) as u16);
                hit_say(&mut result, "Your limbs freeze!");
                assert(views(result.messages@) =~= seq![head_crash(), "Your limbs freeze!"@]);
            } else {
                hit_say(&mut result, "You stiffen momentarily.");
                assert(views(result.messages@) =~= m0 + seq!["You stiffen momentarily."@]);
            }
        },
        PotionType::Confusion | PotionType::Booze => {
            player.confused_timeout = player.confused_timeout.saturating_add(rng.rnd(5) as u16);
            hit_say(&mut result, "You feel somewhat dizzy.");
            assert(views(result.messages@) =~= seq![head_crash(), "You feel somewhat dizzy."@]);
        },
        PotionType::Blindness => {
            let duration: u16 = 64 + rng.rn2(32) as u16;
            player.blinded_timeout = player.blinded_timeout.saturating_add(duration);
            hit_say(&mut result, "It suddenly gets dark.");
            assert(views(result.messages@) =~= seq![head_crash(), "It suddenly gets dark."@]);
        },
        PotionType::Speed => {
            let duration = rng.rnd(5);
            player.properties.set_timeout(Property::Speed, duration);
            hit_say(&mut result, "Your knees seem more flexible now.");
            assert(views(result.messages@) =~= seq![head_crash(), "Your knees seem more flexible now."@]);
        },
        PotionType::Invisibility => {
            let duration = rng.rnd(15) + 31;
            player.properties.set_timeout(Property::Invisibility, duration);
            hit_say(&mut result, "For an instant you couldn't see yourself.");
            assert(views(result.messages@) =~= seq![head_crash(), "For an instant you couldn't see yourself."@]);
        },
        PotionType::Water => {
            if blessed {
                hit_say(&mut result, "You feel a sense of purity.");
                assert(views(result.messages@) =~= m0 + seq!["You feel a sense of purity."@]);
            } else if cursed {
                hit_say(&mut result, "You feel contaminated.");
                assert(views(result.messages@) =~= m0 + seq!["You feel contaminated."@]);
            } else {
                assert(views(result.messages@) =~= m0 + Seq::<Seq<char>>::empty());
            }
        },
        PotionType::Sickness => {
            if !player.properties.has(Property::PoisonResistance) {
                let hp_loss: i32 = if player.hp > 2 { player.hp / 2 } else { 1 };
                player.hp = player.hp - hp_loss;
                hit_say(&mut result, "You feel rather ill.");
                result.player_died = player.hp <= 0;
                assert(views(result.messages@) =~= seq![head_crash(), "You feel rather ill."@]);
            } else {
                assert(views(result.messages@) =~= m0 + Seq::<Seq<char>>::empty());
            }
        },
        _ => {
            assert(views(result.messages@) =~= m0 + Seq::<Seq<char>>::empty());
        },
    }
    result.broke = true;
    proof {
        lemma_splash_keeps_wf(ptype, *old(player), *player, result, old(rng)@, rng@, blessed, cursed, potion.lit);
    }
    result
}

/// Being hit by a thrown potion keeps the property tables complete.
pub proof fn lemma_splash_keeps_wf(t: PotionType, old: You, new: You, r: PotionHitResult, s: u64, s2: u64,
    blessed: bool, cursed: bool, lit: bool)
    requires
        old.wf(),
        splash_effect(t, old, new, r, s, s2, blessed, cursed, lit),
    ensures
        new.wf(),
{
}

/// A thrown potion hits the hero (the same as `potionhit_player`).
pub fn potionhit(potion: &Object, player: &mut You, rng: &mut GameRng) -> (result: PotionHitResult)
    requires
        old(player).wf(),
        potion_of(potion.object_type as int) matches Some(t) ==> splash_safe(t, *old(player), old(rng)@),
    ensures
        final(player).wf(),
        match potion_of(potion.object_type as int) {
            None => {
                &&& *final(player) == *old(player)
                &&& final(rng)@ == old(rng)@
                &&& hit_is(result, seq!["The potion crashes but nothing happens."@], 0, Seq::empty(), false, false)
            },
            Some(t) => splash_effect(t, *old(player), *final(player), result, old(rng)@, final(rng)@, blessed_buc(
                potion.buc), cursed_buc(potion.buc), potion.lit),
        },
{
    potionhit_player(potion, player, rng)
}

/// Whether a potion of kind `t` leaves a sleeping monster it hits asleep.
pub open spec fn calming(t: PotionType) -> bool {
    ||| t == PotionType::Healing
    ||| t == PotionType::ExtraHealing
    ||| t == PotionType::FullHealing
    ||| t == PotionType::Restore
    ||| t == PotionType::GainAbility
    ||| t == PotionType::Speed
    ||| t == PotionType::Invisibility
    ||| t == PotionType::Sleeping
}

/// `m` with its status flags `st`.
pub open spec fn with_state(m: Monster, st: MonsterState) -> Monster {
    Monster { state: st, ..m }
}

/// `m` with `h` hit points.
pub open spec fn with_hp(m: Monster, h: int) -> Monster {
    Monster { hp: h as i32, ..m }
}

/// Monster `m` after a healing potion of kind `t` splashed it: at full hit
/// points, and no longer blind where the kind cures blindness.
pub open spec fn healed_monster(t: PotionType, m: Monster, blessed: bool, cursed: bool) -> Monster {
    healed_with(m, heal_cures(t, blessed, cursed))
}

/// Whether a healing potion of kind `t` cures blindness.
pub open spec fn heal_cures(t: PotionType, blessed: bool, cursed: bool) -> bool {
    t == PotionType::FullHealing || (t == PotionType::ExtraHealing && !cursed) || blessed
}

/// Monster `m` at full hit points, and no longer blind if `cure`.
pub open spec fn healed_with(m: Monster, cure: bool) -> Monster {
    Monster { hp: if m.hp < m.hp_max { m.hp_max } else { m.hp }, state: MonsterState {
        blinded: if cure { false } else { m.state.blinded }, ..m.state }, ..m }
}

/// What the potion of kind `t` itself does to monster `m` once the bottle has
/// hit it, with the generator in state `s`: the monster after, the messages
/// after the crash, the damage it adds, the effects for the caller, and the
/// generator's state after.
#[verifier::opaque]
pub open spec fn monster_splash(t: PotionType, m: Monster, s: u64, blessed: bool, cursed: bool, lit: bool) -> (
    Monster,
    Seq<Seq<char>>,
    int,
    Seq<Seq<char>>,
    u64,
) {
    let none: Seq<Seq<char>> = Seq::empty();
    match t {
        PotionType::Healing | PotionType::ExtraHealing | PotionType::FullHealing | PotionType::Restore
        | PotionType::GainAbility => (healed_monster(t, m, blessed, cursed), if m.hp < m.hp_max {
            seq!["The monster looks sound and hale again."@]
        } else {
            none
        }, 0, seq!["healing"@], s),
        PotionType::Sickness => if m.resistances.poison {
            (m, none, 0, none, s)
        } else {
            let hm = if m.hp_max > 3 { m.hp_max / 2 } else { m.hp_max as int };
            let h1 = if m.hp > 2 { m.hp / 2 } else { m.hp as int };
            (Monster { hp: min_i(h1, hm) as i32, hp_max: hm as i32, ..m }, seq!["The monster looks rather ill."@], 0,
                none, s)
        },
        PotionType::Confusion | PotionType::Booze => (with_state(m, MonsterState { confused: true, ..m.state }), seq![
            "The monster looks confused."@], 0, none, s),
        PotionType::Invisibility => (with_state(m, MonsterState { invisible: true, ..m.state }), seq![
            "The monster vanishes!"@], 0, none, s),
        PotionType::Sleeping => if m.resistances.sleep {
            (m, none, 0, none, s)
        } else {
            (with_state(m, MonsterState { sleeping: true, ..m.state }), seq!["The monster falls asleep."@], 0, none, s)
        },
        PotionType::Paralysis => if m.state.can_move {
            (with_state(m, MonsterState { can_move: false, paralyzed: true, ..m.state }), seq![
                "The monster is frozen in place!"@], 0, none, s)
        } else {
            (m, none, 0, none, s)
        },
        PotionType::Speed => (with_state(m, MonsterState { hasted: true, ..m.state }), seq![
            "The monster seems to move faster."@], 0, none, s),
        PotionType::Blindness => (with_state(m, MonsterState { blinded: true, ..m.state }), seq![
            "The monster is blinded."@], 0, none, s),
        PotionType::Acid => if m.resistances.acid {
            (m, none, 0, none, s)
        } else {
            let nd: nat = if cursed { 2 } else { 1 };
            let d = dice_at(s, nd, if blessed { 4 } else { 8 });
            (with_hp(m, m.hp - d), seq!["The monster writhes in pain!"@], d, none, steps(s, nd))
        },
        PotionType::Water => if blessed && (m.undead || m.demon) {
            let d = dice_at(s, 2, 6);
            (with_hp(m, m.hp - d), seq!["The monster shrieks in pain!"@], d, none, steps(s, 2))
        } else if cursed && (m.undead || m.demon) {
            (with_hp(m, min_i(m.hp + dice_at(s, 2, 6), m.hp_max as int)), seq!["The monster looks healthier."@], 0,
                none, steps(s, 2))
        } else {
            (m, none, 0, none, s)
        },
        PotionType::Oil => if lit {
            let d = dice_at(s, 3, 6);
            (with_hp(m, m.hp - d), seq!["The burning oil splashes the monster!"@], d, none, steps(s, 3))
        } else {
            (m, none, 0, none, s)
        },
        PotionType::Polymorph => (m, seq!["The monster shimmers and changes!"@], 0, seq!["polymorph"@], s),
        _ => (m, none, 0, none, s),
    }
}

/// Whether the bottle itself hurts monster `m`, with the generator in
/// state `s`.
pub open spec fn bottle_hurts(m: Monster, s: u64) -> bool {
    rn2_at(s, 5) != 0 && m.hp > 1
}

/// `m` after the bottle struck it.
pub open spec fn after_bottle(m: Monster, s: u64) -> Monster {
    if bottle_hurts(m, s) { with_hp(m, m.hp - 1) } else { m }
}

/// `m` woken by a potion of kind `t`, unless the kind calms.
pub open spec fn woken_by(t: PotionType, m: Monster) -> Monster {
    if calming(t) { m } else { with_state(m, MonsterState { sleeping: false, ..m.state }) }
}

/// What a potion of kind `t` thrown at monster `old` does: `new` is the
/// monster after, `r` the result, `s` and `s2` the generator's state before and
/// after, `lit` whether the potion burns.
pub open spec fn monster_hit_effect(t: PotionType, old: Monster, new: Monster, r: PotionHitResult, s: u64, s2: u64,
    blessed: bool, cursed: bool, lit: bool) -> bool {
    let out = monster_splash(t, after_bottle(old, s), step(s), blessed, cursed, lit);
    &&& new == woken_by(t, out.0)
    &&& s2 == out.4
    &&& hit_is(r, seq!["The bottle crashes and breaks into shards."@] + out.1, (if bottle_hurts(old, s) { 1int }
        else { 0 }) + out.2, out.3, false, false)
}

/// A potion of kind `t` thrown at monster `m` does no arithmetic that
/// overflows.
pub open spec fn monster_hit_safe(t: PotionType, m: Monster, s: u64, blessed: bool, cursed: bool, lit: bool) -> bool {
    monster_hit_safe_after(t, after_bottle(m, s), step(s), blessed, cursed, lit)
}

/// Whether a potion of kind `t` leaves a sleeping monster asleep.
fn is_calming(t: PotionType) -> (r: bool)
    ensures
        r == calming(t),
{
    matches!(t, PotionType::Healing | PotionType::ExtraHealing | PotionType::FullHealing | PotionType::Restore
        | PotionType::GainAbility | PotionType::Speed | PotionType::Invisibility | PotionType::Sleeping)
}

/// `m2`, `s2` and `r2` are monster `m`, generator state `s` and hit result `r`
/// after the potion of kind `t` itself acted.
pub open spec fn splash_applied(t: PotionType, m: Monster, m2: Monster, s: u64, s2: u64, r: PotionHitResult,
    r2: PotionHitResult, blessed: bool, cursed: bool, lit: bool) -> bool {
    let out = monster_splash(t, m, s, blessed, cursed, lit);
    &&& m2 == out.0
    &&& s2 == out.4
    &&& views(r2.messages@) == views(r.messages@) + out.1
    &&& r2.damage == r.damage + out.2
    &&& views(r2.effects_applied@) == views(r.effects_applied@) + out.3
    &&& r2.broke == r.broke
    &&& r2.hit_player == r.hit_player
    &&& r2.player_died == r.player_died
}

/// The healing kinds and sickness acting on a monster the bottle hit.
/// Whether a healing potion of kind `t` cures blindness.
fn cures_blindness(t: PotionType, blessed: bool, cursed: bool) -> (r: bool)
    ensures
        r == heal_cures(t, blessed, cursed),
{
    match t {
        PotionType::FullHealing => true,
        PotionType::ExtraHealing => !cursed || blessed,
        _ => blessed,
    }
}

fn splash_monster_healing(m: &mut Monster, result: &mut PotionHitResult, cure: bool)
    ensures
        *final(m) == healed_with(*old(m), cure),
        views(final(result).messages@) == views(old(result).messages@) + (if old(m).hp < old(m).hp_max {
            seq!["The monster looks sound and hale again."@]
        } else {
            Seq::empty()
        }),
        final(result).damage == old(result).damage,
        views(final(result).effects_applied@) == views(old(result).effects_applied@) + seq!["healing"@],
        final(result).broke == old(result).broke,
        final(result).hit_player == old(result).hit_player,
        final(result).player_died == old(result).player_died,
{
    let healed = m.hp < m.hp_max;
    let mut st = m.state;
    if cure {
        st.blinded = false;
    }
    let h = if healed { m.hp_max } else { m.hp };
    m.hp = h;
    m.state = st;
    if healed {
        hit_say(result, "The monster looks sound and hale again.");
    }
    hit_effect(result, "healing");
    proof {
        let none = Seq::<Seq<char>>::empty();
        assert(views(result.messages@) =~= views(old(result).messages@) + (if healed {
            seq!["The monster looks sound and hale again."@]
        } else {
            none
        }));
        assert(views(result.effects_applied@) =~= views(old(result).effects_applied@) + seq!["healing"@]);
    }
}

/// Sickness acting on a monster the bottle hit.
fn splash_monster_sickness(m: &mut Monster, rng: &GameRng, blessed: bool, cursed: bool, lit: bool,
    result: &mut PotionHitResult)
    ensures
        splash_applied(PotionType::Sickness, *old(m), *final(m), rng@, rng@, *old(result), *final(result), blessed,
            cursed, lit),
{
    proof {
        reveal(monster_splash);
    }
    let ghost m0 = views(result.messages@);
    let ghost e0 = views(result.effects_applied@);
    let ghost none = Seq::<Seq<char>>::empty();
    if !m.resistances.poison {
        if m.hp_max > 3 {
            m.hp_max = div_trunc(m.hp_max, 2);
        }
        if m.hp > 2 {
            m.hp = div_trunc(m.hp, 2);
        }
        if m.hp > m.hp_max {
            m.hp = m.hp_max;
        }
        hit_say(result, "The monster looks rather ill.");
        assert(views(result.messages@) =~= m0 + seq!["The monster looks rather ill."@]);
    } else {
        assert(views(result.messages@) =~= m0 + none);
    }
    assert(views(result.effects_applied@) =~= e0 + none);
}

/// The kinds that change a monster's status acting on it once the bottle hit.
fn splash_monster_status(t: PotionType, m: &mut Monster, rng: &mut GameRng, blessed: bool, cursed: bool, lit: bool,
    result: &mut PotionHitResult)
    requires
        0 <= old(result).damage <= 1,
        monster_hit_safe_after(t, *old(m), old(rng)@, blessed, cursed, lit),
        t == PotionType::Confusion || t == PotionType::Booze || t == PotionType::Invisibility || t == PotionType::Sleeping
            || t == PotionType::Paralysis || t == PotionType::Speed || t == PotionType::Blindness,
    ensures
        splash_applied(t, *old(m), *final(m), old(rng)@, final(rng)@, *old(result), *final(result), blessed, cursed,
            lit),
{
    proof {
        reveal(monster_splash);
    }
    let ghost m0 = views(result.messages@);
    let ghost e0 = views(result.effects_applied@);
    let ghost none = Seq::<Seq<char>>::empty();
    match t {
        PotionType::Confusion | PotionType::Booze => {
            m.state.confused = true;
            hit_say(result, "The monster looks confused.");
            assert(views(result.messages@) =~= m0 + seq!["The monster looks confused."@]);
            assert(views(result.effects_applied@) =~= e0 + none);
        },
        PotionType::Invisibility => {
            m.state.invisible = true;
            hit_say(result, "The monster vanishes!");
            assert(views(result.messages@) =~= m0 + seq!["The monster vanishes!"@]);
            assert(views(result.effects_applied@) =~= e0 + none);
        },
        PotionType::Sleeping => {
            if !m.resistances.sleep {
                m.state.sleeping = true;
                hit_say(result, "The monster falls asleep.");
                assert(views(result.messages@) =~= m0 + seq!["The monster falls asleep."@]);
            } else {
                assert(views(result.messages@) =~= m0 + none);
            }
            assert(views(result.effects_applied@) =~= e0 + none);
        },
        PotionType::Paralysis => {
            if m.state.can_move {
                m.state.can_move = false;
                m.state.paralyzed = true;
                hit_say(result, "The monster is frozen in place!");
                assert(views(result.messages@) =~= m0 + seq!["The monster is frozen in place!"@]);
            } else {
                assert(views(result.messages@) =~= m0 + none);
            }
            assert(views(result.effects_applied@) =~= e0 + none);
        },
        PotionType::Speed => {
            m.state.hasted = true;
            hit_say(result, "The monster seems to move faster.");
            assert(views(result.messages@) =~= m0 + seq!["The monster seems to move faster."@]);
            assert(views(result.effects_applied@) =~= e0 + none);
        },
        PotionType::Blindness => {
            m.state.blinded = true;
            hit_say(result, "The monster is blinded.");
            assert(views(result.messages@) =~= m0 + seq!["The monster is blinded."@]);
            assert(views(result.effects_applied@) =~= e0 + none);
        },
        _ => {},
    }
}

/// The other kinds acting on a monster the bottle hit.
fn splash_monster_harm(t: PotionType, m: &mut Monster, rng: &mut GameRng, blessed: bool, cursed: bool, lit: bool,
    result: &mut PotionHitResult)
    requires
        0 <= old(result).damage <= 1,
        monster_hit_safe_after(t, *old(m), old(rng)@, blessed, cursed, lit),
        !(t == PotionType::Healing || t == PotionType::ExtraHealing || t == PotionType::FullHealing || t == PotionType::Restore
            || t == PotionType::GainAbility || t == PotionType::Sickness || t == PotionType::Confusion
            || t == PotionType::Booze || t == PotionType::Invisibility || t == PotionType::Sleeping
            || t == PotionType::Paralysis || t == PotionType::Speed || t == PotionType::Blindness),
    ensures
        splash_applied(t, *old(m), *final(m), old(rng)@, final(rng)@, *old(result), *final(result), blessed, cursed,
            lit),
{
    proof {
        reveal(monster_splash);
    }
    let ghost m0 = views(result.messages@);
    let ghost e0 = views(result.effects_applied@);
    let ghost none = Seq::<Seq<char>>::empty();
    match t {
        PotionType::Acid => {
            if !m.resistances.acid {
                let nd: u32 = if cursed { 2 } else { 1 };
                let nsides: u32 = if blessed { 4 } else { 8 };
                let dmg = rng.dice(nd, nsides) as i32;
                m.hp = m.hp - dmg;
                result.damage = result.damage + dmg;
                hit_say(result, "The monster writhes in pain!");
                assert(views(result.messages@) =~= m0 + seq!["The monster writhes in pain!"@]);
            } else {
                assert(views(result.messages@) =~= m0 + none);
            }
            assert(views(result.effects_applied@) =~= e0 + none);
        },
        PotionType::Water => {
            if blessed && (m.is_undead() || m.is_demon()) {
                let dmg = rng.dice(2, 6) as i32;
                m.hp = m.hp - dmg;
                result.damage = result.damage + dmg;
                hit_say(result, "The monster shrieks in pain!");
                assert(views(result.messages@) =~= m0 + seq!["The monster shrieks in pain!"@]);
            } else if cursed && (m.is_undead() || m.is_demon()) {
                let h = m.hp + rng.dice(2, 6) as i32;
                m.hp = if h < m.hp_max { h } else { m.hp_max };
                hit_say(result, "The monster looks healthier.");
                assert(views(result.messages@) =~= m0 + seq!["The monster looks healthier."@]);
            } else {
                assert(views(result.messages@) =~= m0 + none);
            }
            assert(views(result.effects_applied@) =~= e0 + none);
        },
        PotionType::Oil => {
            if lit {
                let dmg = rng.dice(3, 6) as i32;
                m.hp = m.hp - dmg;
                result.damage = result.damage + dmg;
                hit_say(result, "The burning oil splashes the monster!");
                assert(views(result.messages@) =~= m0 + seq!["The burning oil splashes the monster!"@]);
            } else {
                assert(views(result.messages@) =~= m0 + none);
            }
            assert(views(result.effects_applied@) =~= e0 + none);
        },
        PotionType::Polymorph => {
            hit_effect(result, "polymorph");
            hit_say(result, "The monster shimmers and changes!");
            assert(views(result.messages@) =~= m0 + seq!["The monster shimmers and changes!"@]);
            assert(views(result.effects_applied@) =~= e0 + seq!["polymorph"@]);
        },
        _ => {
            assert(views(result.messages@) =~= m0 + none);
            assert(views(result.effects_applied@) =~= e0 + none);
        },
    }
}

/// What the potion of kind `t` itself does to a monster the bottle hit.
fn apply_monster_splash(t: PotionType, m: &mut Monster, rng: &mut GameRng, blessed: bool, cursed: bool, lit: bool,
    result: &mut PotionHitResult)
    requires
        0 <= old(result).damage <= 1,
        monster_hit_safe_after(t, *old(m), old(rng)@, blessed, cursed, lit),
    ensures
        splash_applied(t, *old(m), *final(m), old(rng)@, final(rng)@, *old(result), *final(result), blessed, cursed,
            lit),
{
    match t {
        PotionType::Healing | PotionType::ExtraHealing | PotionType::FullHealing | PotionType::Restore
        | PotionType::GainAbility => {
            let cure = cures_blindness(t, blessed, cursed);
            splash_monster_healing(m, result, cure);
            proof {
                reveal(monster_splash);
            }
        },
        PotionType::Sickness => splash_monster_sickness(m, rng, blessed, cursed, lit, result),
        PotionType::Confusion | PotionType::Booze | PotionType::Invisibility | PotionType::Sleeping
        | PotionType::Paralysis | PotionType::Speed | PotionType::Blindness => splash_monster_status(t, m, rng,
            blessed, cursed, lit, result),
        _ => splash_monster_harm(t, m, rng, blessed, cursed, lit, result),
    }
}

/// The arithmetic of the potion of kind `t` itself on monster `m` (the bottle
/// having struck) stays in range, the generator in state `s`.
pub open spec fn monster_hit_safe_after(t: PotionType, m: Monster, s: u64, blessed: bool, cursed: bool, lit: bool) -> bool {
    match t {
        PotionType::Acid => !m.resistances.acid ==> fits_i32(m.hp - dice_at(s, if cursed { 2 } else { 1 }, if blessed {
            4 } else { 8 })),
        PotionType::Water => (m.undead || m.demon) ==> {
            &&& blessed ==> fits_i32(m.hp - dice_at(s, 2, 6))
            &&& cursed ==> fits_i32(m.hp + dice_at(s, 2, 6))
        },
        PotionType::Oil => lit ==> fits_i32(m.hp - dice_at(s, 3, 6)),
        _ => true,
    }
}

/// A thrown potion hits a monster: the bottle may hurt it, the potion acts by
/// its kind, and a monster not calmed by the kind wakes up. An object that is
/// no potion only crashes.
pub fn potionhit_monster(potion: &Object, monster: &mut Monster, rng: &mut GameRng) -> (result: PotionHitResult)
    requires
        potion_of(potion.object_type as int) matches Some(t) ==> monster_hit_safe(t, *old(monster), old(rng)@,
            blessed_buc(potion.buc), cursed_buc(potion.buc), potion.lit),
    ensures
        match potion_of(potion.object_type as int) {
            None => {
                &&& *final(monster) == *old(monster)
                &&& final(rng)@ == old(rng)@
                &&& hit_is(result, seq!["Crash!"@], 0, Seq::empty(), false, false)
            },
            Some(t) => monster_hit_effect(t, *old(monster), *final(monster), result, old(rng)@, final(rng)@,
                blessed_buc(potion.buc), cursed_buc(potion.buc), potion.lit),
        },
{
    let mut result = PotionHitResult::new();
    let ptype = match PotionType::from_object_type(potion.object_type) {
        Some(t) => t,
        None => {
            hit_say(&mut result, "Crash!");
            assert(views(result.messages@) =~= seq!["Crash!"@]);
            assert(views(result.effects_applied@) =~= Seq::<Seq<char>>::empty());
            return result;
        },
    };
    let blessed = potion.is_blessed();
    let cursed = potion.is_cursed();
    let lit = potion.is_lit();
    if rng.rn2(5) != 0 && monster.hp > 1 {
        monster.hp = monster.hp - 1;
        result.damage = 1;
    }
    hit_say(&mut result, "The bottle crashes and breaks into shards.");
    proof {
        assert(views(result.messages@) =~= seq!["The bottle crashes and breaks into shards."@]);
        assert(views(result.effects_applied@) =~= Seq::<Seq<char>>::empty());
    }
    let ghost m1 = *monster;
    let ghost r1 = result;
    let ghost s1 = rng@;
    apply_monster_splash(ptype, monster, rng, blessed, cursed, lit, &mut result);
    let ghost m2 = *monster;
    wake_unless_calmed(ptype, monster);
    proof {
        lemma_monster_hit_compose(ptype, *old(monster), m1, m2, *monster, r1, result, old(rng)@, rng@, blessed,
            cursed, lit);
    }
    result.broke = true;
    result
}

/// Wake monster `m` unless a potion of kind `t` calms it.
fn wake_unless_calmed(t: PotionType, m: &mut Monster)
    ensures
        *final(m) == woken_by(t, *old(m)),
{
    if !is_calming(t) {
        let mut st = m.state;
        st.sleeping = false;
        m.state = st;
    }
}

/// The bottle's blow, the potion's own action and the waking make up what a
/// thrown potion does to a monster.
proof fn lemma_monster_hit_compose(t: PotionType, old: Monster, m1: Monster, m2: Monster, new: Monster,
    r1: PotionHitResult, r: PotionHitResult, s: u64, s2: u64, blessed: bool, cursed: bool, lit: bool)
    requires
        m1 == after_bottle(old, s),
        views(r1.messages@) == seq!["The bottle crashes and breaks into shards."@],
        r1.damage == (if bottle_hurts(old, s) { 1int } else { 0 }),
        views(r1.effects_applied@) == Seq::<Seq<char>>::empty(),
        !r1.hit_player && !r1.player_died,
        splash_applied(t, m1, m2, step(s), s2, r1, r, blessed, cursed, lit),
        new == woken_by(t, m2),
        r1.broke,
    ensures
        monster_hit_effect(t, old, new, r, s, s2, blessed, cursed, lit),
{
}

/// A result of breathing vapors reporting exactly `msgs`: nothing used up.
pub open spec fn breathe_is(r: PotionResult, msgs: Seq<Seq<char>>) -> bool {
    &&& views(r.messages@) == msgs
    &&& !r.consumed && r.identify
    &&& !r.player_died
    &&& r.level_change == 0
}

/// `hp` raised by up to `n`, but not above `max`.
pub open spec fn nudged(hp: int, max: int, n: int) -> int {
    if hp < max { min_i(hp + n, max) } else { hp }
}

/// Restoring vapors scanning the attributes from offset `k` on, starting at
/// attribute `start` and going round: each depleted attribute met is raised
/// by one, and unless `blessed` the scan stops at the first.
pub open spec fn vapor_restore(cur: Attributes, max: Attributes, start: int, k: nat, blessed: bool) -> Attributes
    decreases 6 - k,
{
    if k >= 6 {
        cur
    } else {
        let a = gain_attr((start + k) % 6);
        if cur.value(a) < max.value(a) {
            let raised_one = cur.with(a, (cur.value(a) + 1) as i8);
            if blessed { vapor_restore(raised_one, max, start, k + 1, blessed) } else { raised_one }
        } else {
            vapor_restore(cur, max, start, k + 1, blessed)
        }
    }
}

/// Every depleted attribute one higher.
pub open spec fn restored_all(cur: Attributes, max: Attributes) -> Attributes {
    Attributes {
        strength: if cur.strength < max.strength { (cur.strength + 1) as i8 } else { cur.strength },
        intelligence: if cur.intelligence < max.intelligence { (cur.intelligence + 1) as i8 } else {
            cur.intelligence },
        wisdom: if cur.wisdom < max.wisdom { (cur.wisdom + 1) as i8 } else { cur.wisdom },
        dexterity: if cur.dexterity < max.dexterity { (cur.dexterity + 1) as i8 } else { cur.dexterity },
        constitution: if cur.constitution < max.constitution { (cur.constitution + 1) as i8 } else {
            cur.constitution },
        charisma: if cur.charisma < max.charisma { (cur.charisma + 1) as i8 } else { cur.charisma },
    }
}

/// What breathing the vapors of a potion of kind `t` does: `old` and `new`
/// are the hero before and after, `r` the result, `s` and `s2` the
/// generator's state before and after.
pub open spec fn breathe_effect(t: PotionType, old: You, new: You, r: PotionResult, s: u64, s2: u64, blessed: bool,
    cursed: bool) -> bool {
    let none: Seq<Seq<char>> = Seq::empty();
    match t {
        PotionType::Restore | PotionType::GainAbility => if cursed {
            &&& new == old
            &&& s2 == s
            &&& breathe_is(r, seq!["Ulch! That potion smells terrible!"@])
        } else {
            &&& new == (You { attr_current: vapor_restore(old.attr_current, old.attr_max, rn2_at(s, 6) as int, 0,
                blessed), ..old })
            &&& s2 == step(s)
            &&& breathe_is(r, none)
        },
        PotionType::Healing | PotionType::ExtraHealing | PotionType::FullHealing => {
            let n = if t == PotionType::Healing { 1int } else if t == PotionType::ExtraHealing { 2 } else { 3 };
            let cure = if t == PotionType::Healing { blessed } else if t == PotionType::ExtraHealing { !cursed } else {
                true };
            let clears = cure && (t == PotionType::FullHealing || old.blinded_timeout > 0);
            &&& new == (You { hp: nudged(old.hp as int, old.hp_max as int, n) as i32,
                blinded_timeout: if clears { 0 } else { old.blinded_timeout }, ..old })
            &&& s2 == s
            &&& breathe_is(r, if clears { seq!["Your vision clears."@] } else { none })
        },
        PotionType::Sickness => {
            &&& new == (You { hp: if old.hp <= 5 { 1 } else { (old.hp - 5) as i32 }, ..old })
            &&& s2 == s
            &&& breathe_is(r, none)
        },
        PotionType::Hallucination => {
            &&& new == old
            &&& s2 == s
            &&& breathe_is(r, seq!["You have a momentary vision."@])
        },
        PotionType::Confusion | PotionType::Booze => {
            &&& new == (You { confused_timeout: sat_u16(old.confused_timeout as int, rnd_at(s, 5)) as u16, ..old })
            &&& s2 == step(s)
            &&& breathe_is(r, if old.confused_timeout == 0 { seq!["You feel somewhat dizzy."@] } else { none })
        },
        PotionType::Invisibility => {
            &&& new == old
            &&& s2 == s
            &&& breathe_is(r, seq!["For an instant you couldn't see yourself."@])
        },
        PotionType::Paralysis => if old.properties.holds(Property::FreeAction) {
            &&& new == old
            &&& s2 == s
            &&& breathe_is(r, seq!["You stiffen momentarily."@])
        } else {
            &&& new == (You { paralyzed_timeout: sat_u16(old.paralyzed_timeout as int, rnd_at(s, 5)) as u16, ..old })
            &&& s2 == step(s)
            &&& breathe_is(r, seq!["Something seems to be holding you."@])
        },
        PotionType::Sleeping => if old.properties.holds(Property::SleepResistance) {
            &&& new == old
            &&& s2 == s
            &&& breathe_is(r, seq!["You yawn."@])
        } else {
            &&& new == (You { sleeping_timeout: sat_u16(old.sleeping_timeout as int, rnd_at(s, 5)) as u16, ..old })
            &&& s2 == step(s)
            &&& breathe_is(r, seq!["You feel rather tired."@])
        },
        PotionType::Speed => {
            &&& new == (You { properties: new.properties, ..old })
            &&& timeout_set(old.properties, new.properties, Property::Speed, rnd_at(s, 5) as u32)
            &&& s2 == step(s)
            &&& breathe_is(r, seq!["Your knees seem more flexible now."@])
        },
        PotionType::Blindness => {
            &&& new == (You { blinded_timeout: sat_u16(old.blinded_timeout as int, rnd_at(s, 5)) as u16, ..old })
            &&& s2 == step(s)
            &&& breathe_is(r, if old.blinded_timeout == 0 { seq!["It suddenly gets dark."@] } else { none })
        },
        _ => {
            &&& new == old
            &&& s2 == s
            &&& breathe_is(r, none)
        },
    }
}

/// Restoring vapors from a draw `start` of `rn2(6)`.
fn restore_vapors(cur: &mut Attributes, max: &Attributes, start: u32, blessed: bool)
    requires
        start < 6,
    ensures
        *final(cur) == vapor_restore(*old(cur), *max, start as int, 0, blessed),
{
    let mut offset: u32 = 0;
    while offset < 6
        invariant_except_break
            offset <= 6,
            start < 6,
            vapor_restore(*cur, *max, start as int, offset as nat, blessed) == vapor_restore(*old(cur), *max,
                start as int, 0, blessed),
        ensures
            *cur == vapor_restore(*old(cur), *max, start as int, 0, blessed),
        decreases 6 - offset,
    {
        let idx = (start + offset) % 6;
        let attr = if idx == 0 {
            Attribute::Strength
        } else if idx == 1 {
            Attribute::Dexterity
        } else if idx == 2 {
            Attribute::Constitution
        } else if idx == 3 {
            Attribute::Intelligence
        } else if idx == 4 {
            Attribute::Wisdom
        } else {
            Attribute::Charisma
        };
        assert(attr == gain_attr((start + offset) % 6));
        let current = cur.get(attr);
        let m = max.get(attr);
        if current < m {
            cur.set(attr, current + 1);
            if !blessed {
                break;
            }
        }
        offset = offset + 1;
    }
}

/// Breathe the vapors of a potion broken near the hero: milder effects by
/// its kind; the potion is not used up by this. An object that is no potion
/// does nothing.
pub fn potionbreathe(potion: &Object, player: &mut You, rng: &mut GameRng) -> (result: PotionResult)
    requires
        old(player).wf(),
    ensures
        final(player).wf(),
        match potion_of(potion.object_type as int) {
            None => {
                &&& *final(player) == *old(player)
                &&& final(rng)@ == old(rng)@
                &&& breathe_is(result, Seq::empty())
            },
            Some(t) => breathe_effect(t, *old(player), *final(player), result, old(rng)@, final(rng)@, blessed_buc(
                potion.buc), cursed_buc(potion.buc)),
        },
{
    let mut result = PotionResult::new();
    result.consumed = false;
    proof {
        assert(views(result.messages@) =~= Seq::<Seq<char>>::empty());
    }
    let ptype = match PotionType::from_object_type(potion.object_type) {
        Some(t) => t,
        None => {
            return result;
        },
    };
    let blessed = potion.is_blessed();
    let cursed = potion.is_cursed();
    let ghost m0 = views(result.messages@);
    match ptype {
        PotionType::Restore | PotionType::GainAbility => {
            if cursed {
                say(&mut result, "Ulch! That potion smells terrible!");
                assert(views(result.messages@) =~= seq!["Ulch! That potion smells terrible!"@]);
            } else {
                let start = rng.rn2(6);
                let max = player.attr_max;
                restore_vapors(&mut player.attr_current, &max, start, blessed);
            }
        },
        PotionType::Healing => {
            if player.hp < player.hp_max {
                player.hp = player.hp + 1;
            }
            if blessed && player.blinded_timeout > 0 {
                player.blinded_timeout = 0;
                say(&mut result, "Your vision clears.");
                assert(views(result.messages@) =~= seq!["Your vision clears."@]);
            }
        },
        PotionType::ExtraHealing => {
            if player.hp < player.hp_max {
                player.hp = player.hp + 1;
            }
            if player.hp < player.hp_max {
                player.hp = player.hp + 1;
            }
            if !cursed && player.blinded_timeout > 0 {
                player.blinded_timeout = 0;
                say(&mut result, "Your vision clears.");
                assert(views(result.messages@) =~= seq!["Your vision clears."@]);
            }
        },
        PotionType::FullHealing => {
            if player.hp < player.hp_max {
                player.hp = player.hp + 1;
            }
            if player.hp < player.hp_max {
                player.hp = player.hp + 1;
            }
            if player.hp < player.hp_max {
                player.hp = player.hp + 1;
            }
            player.blinded_timeout = 0;
            say(&mut result, "Your vision clears.");
            assert(views(result.messages@) =~= seq!["Your vision clears."@]);
        },
        PotionType::Sickness => {
            if player.hp <= 5 {
                player.hp = 1;
            } else {
                player.hp = player.hp - 5;
            }
        },
        PotionType::Hallucination => {
            say(&mut result, "You have a momentary vision.");
            assert(views(result.messages@) =~= seq!["You have a momentary vision."@]);
        },
        PotionType::Confusion | PotionType::Booze => {
            if player.confused_timeout == 0 {
                say(&mut result, "You feel somewhat dizzy.");
                assert(views(result.messages@) =~= seq!["You feel somewhat dizzy."@]);
            }
            player.confused_timeout = player.confused_timeout.saturating_add(rng.rnd(5) as u16);
        },
        PotionType::Invisibility => {
            say(&mut result, "For an instant you couldn't see yourself.");
            assert(views(result.messages@) =~= seq!["For an instant you couldn't see yourself."@]);
        },
        PotionType::Paralysis => {
            if !player.properties.has(Property::FreeAction) {
                say(&mut result, "Something seems to be holding you.");
                assert(views(result.messages@) =~= seq!["Something seems to be holding you."@]);
                player.paralyzed_timeout = player.paralyzed_timeout.saturating_add(rng.rnd(5) as u16);
            } else {
                say(&mut result, "You stiffen momentarily.");
                assert(views(result.messages@) =~= seq!["You stiffen momentarily."@]);
            }
        },
        PotionType::Sleeping => {
            if !player.properties.has(Property::SleepResistance) {
                say(&mut result, "You feel rather tired.");
                assert(views(result.messages@) =~= seq!["You feel rather tired."@]);
                player.sleeping_timeout = player.sleeping_timeout.saturating_add(rng.rnd(5) as u16);
            } else {
                say(&mut result, "You yawn.");
                assert(views(result.messages@) =~= seq!["You yawn."@]);
            }
        },
        PotionType::Speed => {
            say(&mut result, "Your knees seem more flexible now.");
            assert(views(result.messages@) =~= seq!["Your knees seem more flexible now."@]);
            let duration = rng.rnd(5);
            player.properties.set_timeout(Property::Speed, duration);
        },
        PotionType::Blindness => {
            if player.blinded_timeout == 0 {
                say(&mut result, "It suddenly gets dark.");
                assert(views(result.messages@) =~= seq!["It suddenly gets dark."@]);
            }
            player.blinded_timeout = player.blinded_timeout.saturating_add(rng.rnd(5) as u16);
        },
        _ => {},
    }
    proof {
        lemma_breathe_keeps_wf(ptype, *old(player), *player, result, old(rng)@, rng@, blessed, cursed);
    }
    result
}

/// Breathing vapors keeps the property tables complete.
pub proof fn lemma_breathe_keeps_wf(t: PotionType, old: You, new: You, r: PotionResult, s: u64, s2: u64, blessed: bool,
    cursed: bool)
    requires
        old.wf(),
        breathe_effect(t, old, new, r, s, s2, blessed, cursed),
    ensures
        new.wf(),
{
}

/// Every potion kind is found again from its object type.
pub proof fn lemma_potion_type_round_trip(t: PotionType)
    ensures
        potion_of(potion_number(t)) == Some(t),
{
}


/// Drinking a potion of healing never lifts the hero above full health: hit
/// points end at most at the maximum, the maximum is unchanged, and a hero
/// not above the maximum loses no hit points.
pub proof fn lemma_healing_potion_capped(old: You, new: You, r: PotionResult, s: u64, s2: u64, blessed: bool,
    cursed: bool)
    requires
        quaff_effect(PotionType::Healing, old, new, r, s, s2, blessed, cursed),
    ensures
        new.hp <= new.hp_max,
        new.hp_max == old.hp_max,
        old.hp <= old.hp_max ==> old.hp <= new.hp,
{
    if blessed {
        crate::rng::lemma_dice_bounds(s, 8, 4);
    } else if cursed {
        crate::rng::lemma_dice_bounds(s, 4, 4);
    } else {
        crate::rng::lemma_dice_bounds(s, 6, 4);
    }
}

/// Sleep resistance wards off a thrown potion of sleeping: the resistant
/// hero is left exactly as before, sleep timer included, while a hero
/// without it falls asleep for at least one turn.
pub proof fn lemma_sleep_resistance_wards_sleeping_potion(old: You, new: You, r: PotionHitResult, s: u64, s2: u64,
    blessed: bool, cursed: bool, lit: bool)
    requires
        splash_effect(PotionType::Sleeping, old, new, r, s, s2, blessed, cursed, lit),
    ensures
        old.properties.holds(Property::SleepResistance) ==> new == old
            && new.sleeping_timeout == old.sleeping_timeout,
        !old.properties.holds(Property::SleepResistance) ==> 1 <= new.sleeping_timeout <= 12,
{
    crate::rng::lemma_rn2_bound(step(s), 12);
}

} // verus!
