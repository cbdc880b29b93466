//! Consequences of cursed equipment: fumbling, penalties to attack, armor
//! and attributes, encumbrance and items that cannot be removed.

use vstd::prelude::*;
use vstd::string::*;
use crate::object::{BucStatus, Object, ObjectClass};
use crate::player::{Attribute, Attributes, You};
use crate::rng::{GameRng, rn2_at, step};

verus! {

/// Kinds of curse effects.
#[derive(Debug, Clone, Copy, PartialEq, Eq, Hash, Structural)]
pub enum CursedEffect {
    Fumbling,
    WeaponPenalty,
    ArmorPenalty,
    Encumbrance,
    StatsLower,
    ForcedEquip,
    Weakness,
    Slowness,
    Clumsiness,
}

/// What the hero feels when a curse effect strikes.
pub open spec fn effect_description(e: CursedEffect) -> Seq<char> {
    match e {
        CursedEffect::Fumbling => "You feel clumsy"@,
        CursedEffect::WeaponPenalty => "The weapon feels wrong in your hand"@,
        CursedEffect::ArmorPenalty => "The armor constricts around you"@,
        CursedEffect::Encumbrance => "You feel unusually heavy"@,
        CursedEffect::StatsLower => "You feel weaker"@,
        CursedEffect::ForcedEquip => "You cannot remove this item"@,
        CursedEffect::Weakness => "Your grip weakens"@,
        CursedEffect::Slowness => "You feel sluggish"@,
        CursedEffect::Clumsiness => "You feel uncoordinated"@,
    }
}

/// Severity of a curse effect, 1 to 5.
pub open spec fn effect_severity(e: CursedEffect) -> i32 {
    match e {
        CursedEffect::Fumbling | CursedEffect::ArmorPenalty | CursedEffect::Clumsiness => 3,
        CursedEffect::StatsLower => 4,
        CursedEffect::ForcedEquip => 5,
        _ => 2,
    }
}

impl CursedEffect {
    /// Get the description of the effect.
    pub fn description(&self) -> (s: &'static str)
        ensures
            s@ == effect_description(*self),
    {
        match self {
            CursedEffect::Fumbling => "You feel clumsy",
            CursedEffect::WeaponPenalty => "The weapon feels wrong in your hand",
            CursedEffect::ArmorPenalty => "The armor constricts around you",
            CursedEffect::Encumbrance => "You feel unusually heavy",
            CursedEffect::StatsLower => "You feel weaker",
            CursedEffect::ForcedEquip => "You cannot remove this item",
            CursedEffect::Weakness => "Your grip weakens",
            CursedEffect::Slowness => "You feel sluggish",
            CursedEffect::Clumsiness => "You feel uncoordinated",
        }
    }

    /// Get the severity rating, 1 to 5.
    pub fn severity(&self) -> (s: i32)
        ensures
            s == effect_severity(*self),
    {
        match self {
            CursedEffect::Fumbling => 3,
            CursedEffect::WeaponPenalty => 2,
            CursedEffect::ArmorPenalty => 3,
            CursedEffect::Encumbrance => 2,
            CursedEffect::StatsLower => 4,
            CursedEffect::ForcedEquip => 5,
            CursedEffect::Weakness => 2,
            CursedEffect::Slowness => 2,
            CursedEffect::Clumsiness => 3,
        }
    }
}

/// An active curse consequence of an item.
#[derive(Debug, Clone, Copy, PartialEq, Eq, Structural)]
pub struct CursedConsequence {
    pub effect: CursedEffect,
    pub object_id: u32,
    pub affected_attribute: Option<Attribute>,
    /// The size of the penalty.
    pub magnitude: i32,
}

impl CursedConsequence {
    /// A consequence of magnitude 1 touching no attribute.
    pub fn new(effect: CursedEffect, object_id: u32) -> (c: Self)
        ensures
            c == (CursedConsequence { effect, object_id, affected_attribute: None, magnitude: 1 }),
    {
        CursedConsequence { effect, object_id, affected_attribute: None, magnitude: 1 }
    }

    /// The consequence lowering attribute `attr` by `reduction`.
    pub fn with_stat(self, attr: Attribute, reduction: i32) -> (c: Self)
        ensures
            c == (CursedConsequence { affected_attribute: Some(attr), magnitude: reduction, ..self }),
    {
        let mut c = self;
        c.affected_attribute = Some(attr);
        c.magnitude = reduction;
        c
    }

    /// The consequence with another magnitude.
    pub fn with_magnitude(self, mag: i32) -> (c: Self)
        ensures
            c == (CursedConsequence { magnitude: mag, ..self }),
    {
        let mut c = self;
        c.magnitude = mag;
        c
    }
}

/// Sum of the magnitudes of the consequences that `keep` selects.
pub open spec fn magnitude_sum(s: Seq<CursedConsequence>, keep: spec_fn(CursedConsequence) -> bool) -> int
    decreases s.len(),
{
    if s.len() == 0 {
        0
    } else {
        magnitude_sum(s.drop_last(), keep) + if keep(s.last()) { s.last().magnitude as int } else { 0 }
    }
}

/// Number of the consequences that `keep` selects.
pub open spec fn consequence_count(s: Seq<CursedConsequence>, keep: spec_fn(CursedConsequence) -> bool) -> int
    decreases s.len(),
{
    if s.len() == 0 {
        0
    } else {
        consequence_count(s.drop_last(), keep) + if keep(s.last()) { 1int } else { 0 }
    }
}

/// Selects the consequences of `effect` (and of `attr`, when given).
pub open spec fn selector(effect: CursedEffect, attr: Option<Attribute>) -> spec_fn(CursedConsequence) -> bool {
    |c: CursedConsequence| c.effect == effect && (attr is None || c.affected_attribute == attr)
}

/// Selects the consequences of one effect.
pub open spec fn of_effect(e: CursedEffect) -> spec_fn(CursedConsequence) -> bool {
    |c: CursedConsequence| c.effect == e
}

/// Selects attribute-lowering consequences of one attribute.
pub open spec fn lowering(a: Attribute) -> spec_fn(CursedConsequence) -> bool {
    |c: CursedConsequence| c.effect == CursedEffect::StatsLower && c.affected_attribute == Some(a)
}

proof fn lemma_count_bound(s: Seq<CursedConsequence>, keep: spec_fn(CursedConsequence) -> bool)
    ensures
        0 <= consequence_count(s, keep) <= s.len(),
    decreases s.len(),
{
    if s.len() > 0 {
        lemma_count_bound(s.drop_last(), keep);
    }
}

/// The curses of all worn items.
#[derive(Debug, Clone)]
pub struct CursedItemTracker {
    pub active_curses: Vec<CursedConsequence>,
}

impl Default for CursedItemTracker {
    fn default() -> (t: Self)
        ensures
            t.active_curses@.len() == 0,
    {
        Self::new()
    }
}

impl CursedItemTracker {
    /// No curses.
    pub fn new() -> (t: Self)
        ensures
            t.active_curses@.len() == 0,
    {
        CursedItemTracker { active_curses: Vec::new() }
    }

    /// Add a curse consequence.
    pub fn add_curse(&mut self, consequence: CursedConsequence)
        ensures
            final(self).active_curses@ == old(self).active_curses@.push(consequence),
    {
        self.active_curses.push(consequence);
    }

    /// Remove every curse of an item, keeping the others in order.
    pub fn remove_item_curses(&mut self, object_id: u32)
        ensures
            final(self).active_curses@ == old(self).active_curses@.filter(not_of_item(object_id)),
    {
        let mut kept: Vec<CursedConsequence> = Vec::new();
        let mut i: usize = 0;
        let ghost s = self.active_curses@;
        let ghost keep = |c: CursedConsequence| c.object_id != object_id;
        while i < self.active_curses.len()
            invariant
                s == self.active_curses@,
                i <= s.len(),
                keep == (|c: CursedConsequence| c.object_id != object_id),
                kept@ == s.take(i as int).filter(keep),
            decreases s.len() - i,
        {
            let c = self.active_curses[i];
            proof {
                assert(s.take(i + 1).drop_last() =~= s.take(i as int));
                reveal(Seq::filter);
            }
            if c.object_id != object_id {
                kept.push(c);
            }
            i = i + 1;
        }
        proof {
            assert(s.take(s.len() as int) =~= s);
        }
        self.active_curses = kept;
    }

    /// Whether an item has a curse of the given kind.
    pub fn has_curse_type(&self, object_id: u32, effect: CursedEffect) -> (r: bool)
        ensures
            r == exists|i: int| 0 <= i < self.active_curses@.len() && self.active_curses@[i].object_id == object_id
                && self.active_curses@[i].effect == effect,
    {
        let mut i: usize = 0;
        while i < self.active_curses.len()
            invariant
                i <= self.active_curses@.len(),
                forall|j: int| 0 <= j < i ==> !(self.active_curses@[j].object_id == object_id
                    && self.active_curses@[j].effect == effect),
            decreases self.active_curses@.len() - i,
        {
            if self.active_curses[i].object_id == object_id && self.active_curses[i].effect == effect {
                return true;
            }
            i = i + 1;
        }
        false
    }

    /// All the curses of an item, in order.
    pub fn get_all_curses(&self, object_id: u32) -> (v: Vec<&CursedConsequence>)
        ensures
            v@.map_values(|r: &CursedConsequence| *r) == self.active_curses@.filter(
                |c: CursedConsequence| c.object_id == object_id),
    {
        let mut v: Vec<&CursedConsequence> = Vec::new();
        let ghost s = self.active_curses@;
        let ghost keep = |c: CursedConsequence| c.object_id == object_id;
        let mut i: usize = 0;
        while i < self.active_curses.len()
            invariant
                s == self.active_curses@,
                i <= s.len(),
                keep == (|c: CursedConsequence| c.object_id == object_id),
                v@.map_values(|r: &CursedConsequence| *r) == s.take(i as int).filter(keep),
            decreases s.len() - i,
        {
            let c = &self.active_curses[i];
            proof {
                assert(s.take(i + 1).drop_last() =~= s.take(i as int));
                reveal(Seq::filter);
            }
            if c.object_id == object_id {
                let ghost before = v@;
                v.push(c);
                proof {
                    assert(v@.map_values(|r: &CursedConsequence| *r) =~= before.map_values(
                        |r: &CursedConsequence| *r).push(*c));
                }
            }
            i = i + 1;
        }
        proof {
            assert(s.take(s.len() as int) =~= s);
        }
        v
    }

    /// Whether an item cannot be removed.
    pub fn is_item_stuck(&self, object_id: u32) -> (r: bool)
        ensures
            r == exists|i: int| 0 <= i < self.active_curses@.len() && self.active_curses@[i].object_id == object_id
                && self.active_curses@[i].effect == CursedEffect::ForcedEquip,
    {
        self.has_curse_type(object_id, CursedEffect::ForcedEquip)
    }

    /// Sum of the magnitudes of the curses of `effect` (and of `attr`, when given).
    fn sum_selected(&self, effect: CursedEffect, attr: Option<Attribute>) -> (n: i32)
        requires
            forall|k: int| 0 <= k <= self.active_curses@.len() ==> i32::MIN <= #[trigger] magnitude_sum(
                self.active_curses@.take(k), selector(effect, attr)) <= i32::MAX,
        ensures
            n == magnitude_sum(self.active_curses@, selector(effect, attr)),
    {
        let ghost keep = selector(effect, attr);
        let ghost s = self.active_curses@;
        let mut n: i32 = 0;
        let mut i: usize = 0;
        proof {
            assert(s.take(0) =~= Seq::<CursedConsequence>::empty());
        }
        while i < self.active_curses.len()
            invariant
                s == self.active_curses@,
                i <= s.len(),
                keep == selector(effect, attr),
                forall|k: int| 0 <= k <= s.len() ==> i32::MIN <= #[trigger] magnitude_sum(s.take(k), keep) <= i32::MAX,
                n == magnitude_sum(s.take(i as int), keep),
            decreases s.len() - i,
        {
            let c = self.active_curses[i];
            proof {
                assert(s.take(i + 1).drop_last() =~= s.take(i as int));
                assert(s.take(i + 1).last() == c);
                assert(i32::MIN <= magnitude_sum(s.take(i + 1), keep) <= i32::MAX);
            }
            let hit = c.effect == effect && match attr {
                None => true,
                Some(a) => c.affected_attribute == Some(a),
            };
            if hit {
                n = n + c.magnitude;
            }
            i = i + 1;
        }
        proof {
            assert(s.take(s.len() as int) =~= s);
        }
        n
    }

    /// Total fumbling chance from all cursed items.
    pub fn total_fumble_chance(&self) -> (n: i32)
        requires
            forall|k: int| 0 <= k <= self.active_curses@.len() ==> i32::MIN <= #[trigger] magnitude_sum(
                self.active_curses@.take(k), of_effect(CursedEffect::Fumbling)) <= i32::MAX,
        ensures
            n == magnitude_sum(self.active_curses@, of_effect(CursedEffect::Fumbling)),
    {
        proof {
            assert(selector(CursedEffect::Fumbling, None) =~= of_effect(CursedEffect::Fumbling));
            assert(self.active_curses@.take(self.active_curses@.len() as int) =~= self.active_curses@);
        }
        self.sum_selected(CursedEffect::Fumbling, None)
    }

    /// Total armor class penalty from cursed armor.
    pub fn total_armor_penalty(&self) -> (n: i32)
        requires
            forall|k: int| 0 <= k <= self.active_curses@.len() ==> i32::MIN <= #[trigger] magnitude_sum(
                self.active_curses@.take(k), of_effect(CursedEffect::ArmorPenalty)) <= i32::MAX,
        ensures
            n == magnitude_sum(self.active_curses@, of_effect(CursedEffect::ArmorPenalty)),
    {
        proof {
            assert(selector(CursedEffect::ArmorPenalty, None) =~= of_effect(CursedEffect::ArmorPenalty));
            assert(self.active_curses@.take(self.active_curses@.len() as int) =~= self.active_curses@);
        }
        self.sum_selected(CursedEffect::ArmorPenalty, None)
    }

    /// Total reduction of an attribute from cursed equipment.
    pub fn total_stat_reduction(&self, attr: Attribute) -> (n: i32)
        requires
            forall|k: int| 0 <= k <= self.active_curses@.len() ==> i32::MIN <= #[trigger] magnitude_sum(
                self.active_curses@.take(k), lowering(attr)) <= i32::MAX,
        ensures
            n == magnitude_sum(self.active_curses@, lowering(attr)),
    {
        proof {
            assert(selector(CursedEffect::StatsLower, Some(attr)) =~= lowering(attr));
            assert(self.active_curses@.take(self.active_curses@.len() as int) =~= self.active_curses@);
        }
        self.sum_selected(CursedEffect::StatsLower, Some(attr))
    }

    /// Number of encumbering curses.
    pub fn total_encumbrance(&self) -> (n: i32)
        requires
            self.active_curses@.len() <= i32::MAX,
        ensures
            n == consequence_count(self.active_curses@, of_effect(CursedEffect::Encumbrance)),
    {
        let ghost s = self.active_curses@;
        let ghost keep = of_effect(CursedEffect::Encumbrance);
        let mut n: i32 = 0;
        let mut i: usize = 0;
        while i < self.active_curses.len()
            invariant
                s == self.active_curses@,
                s.len() <= i32::MAX,
                i <= s.len(),
                keep == of_effect(CursedEffect::Encumbrance),
                n == consequence_count(s.take(i as int), keep),
            decreases s.len() - i,
        {
            proof {
                assert(s.take(i + 1).drop_last() =~= s.take(i as int));
                lemma_count_bound(s.take(i as int), keep);
            }
            if self.active_curses[i].effect == CursedEffect::Encumbrance {
                n = n + 1;
            }
            i = i + 1;
        }
        proof {
            assert(s.take(s.len() as int) =~= s);
        }
        n
    }
}

/// The curse effects a cursed item of class `c` gets from the rolls drawn from
/// state `s`: for a weapon fumbling (40%), attack penalty (30%) and weakness
/// (20%); for armor an armor penalty (50%) and encumbrance (30%); for any
/// item sticking (25%) and attribute loss (35%), in that order.
pub open spec fn cursed_effects_from(c: ObjectClass, s: u64) -> Seq<CursedEffect> {
    let pick = |ok: bool, e: CursedEffect| if ok { seq![e] } else { Seq::<CursedEffect>::empty() };
    if c == ObjectClass::Weapon {
        pick(rn2_at(s, 100) < 40, CursedEffect::Fumbling)
            + pick(rn2_at(step(s), 100) < 30, CursedEffect::WeaponPenalty)
            + pick(rn2_at(step(step(s)), 100) < 20, CursedEffect::Weakness)
            + pick(rn2_at(step(step(step(s))), 100) < 25, CursedEffect::ForcedEquip)
            + pick(rn2_at(step(step(step(step(s)))), 100) < 35, CursedEffect::StatsLower)
    } else if c == ObjectClass::Armor {
        pick(rn2_at(s, 100) < 50, CursedEffect::ArmorPenalty)
            + pick(rn2_at(step(s), 100) < 30, CursedEffect::Encumbrance)
            + pick(rn2_at(step(step(s)), 100) < 25, CursedEffect::ForcedEquip)
            + pick(rn2_at(step(step(step(s))), 100) < 35, CursedEffect::StatsLower)
    } else {
        pick(rn2_at(s, 100) < 25, CursedEffect::ForcedEquip)
            + pick(rn2_at(step(s), 100) < 35, CursedEffect::StatsLower)
    }
}

/// Number of rolls `determine_cursed_effects` draws for a cursed item of class `c`.
pub open spec fn cursed_rolls(c: ObjectClass) -> nat {
    if c == ObjectClass::Weapon { 5 } else if c == ObjectClass::Armor { 4 } else { 2 }
}

/// Push `e` when `ok`.
fn push_if(v: &mut Vec<CursedEffect>, ok: bool, e: CursedEffect)
    ensures
        final(v)@ == old(v)@ + (if ok { seq![e] } else { Seq::<CursedEffect>::empty() }),
{
    if ok {
        v.push(e);
    }
    assert(v@ =~= old(v)@ + (if ok { seq![e] } else { Seq::<CursedEffect>::empty() }));
}

/// Decide what curse effects an item gets: none unless it is cursed.
pub fn determine_cursed_effects(obj: &Object, rng: &mut GameRng) -> (v: Vec<CursedEffect>)
    ensures
        obj.buc != BucStatus::Cursed ==> v@.len() == 0 && final(rng)@ == old(rng)@,
        obj.buc == BucStatus::Cursed ==> v@ == cursed_effects_from(obj.class, old(rng)@)
            && final(rng)@ == crate::rng::steps(old(rng)@, cursed_rolls(obj.class)),
{
    if !obj.is_cursed() {
        return Vec::new();
    }
    let ghost s = rng@;
    let mut effects: Vec<CursedEffect> = Vec::new();
    if obj.class == ObjectClass::Weapon {
        let a = rng.percent(40);
        push_if(&mut effects, a, CursedEffect::Fumbling);
        let b = rng.percent(30);
        push_if(&mut effects, b, CursedEffect::WeaponPenalty);
        let c = rng.percent(20);
        push_if(&mut effects, c, CursedEffect::Weakness);
    }
    if obj.class == ObjectClass::Armor {
        let a = rng.percent(50);
        push_if(&mut effects, a, CursedEffect::ArmorPenalty);
        let b = rng.percent(30);
        push_if(&mut effects, b, CursedEffect::Encumbrance);
    }
    let d = rng.percent(25);
    push_if(&mut effects, d, CursedEffect::ForcedEquip);
    let e = rng.percent(35);
    push_if(&mut effects, e, CursedEffect::StatsLower);
    proof {
        reveal_with_fuel(crate::rng::steps, 6);
        assert(effects@ =~= cursed_effects_from(obj.class, s));
    }
    effects
}

/// `min(a, b)`.
pub open spec fn min_int(a: int, b: int) -> int {
    if a < b { a } else { b }
}

/// `|e|`.
pub open spec fn abs_int(e: int) -> int {
    if e < 0 { -e } else { e }
}

/// The size of a curse effect for an item of enchantment `e`.
pub open spec fn curse_magnitude(e: int, effect: CursedEffect) -> i32 {
    match effect {
        CursedEffect::Fumbling => (25 + min_int(abs_int(e) * 5, 15)) as i32,
        CursedEffect::WeaponPenalty => (-min_int(abs_int(e) + 1, 5)) as i32,
        CursedEffect::ArmorPenalty => (1 + min_int(abs_int(e) / 2, 2)) as i32,
        CursedEffect::Encumbrance => 1,
        CursedEffect::StatsLower => (1 + min_int(abs_int(e) / 5, 1)) as i32,
        CursedEffect::Weakness | CursedEffect::Slowness => 20,
        CursedEffect::Clumsiness => 2,
        CursedEffect::ForcedEquip => 1,
    }
}

/// Determine how severe a curse effect of an item is.
pub fn calculate_curse_magnitude(obj: &Object, effect: CursedEffect) -> (m: i32)
    requires
        obj.enchantment != i8::MIN,
    ensures
        m == curse_magnitude(obj.enchantment as int, effect),
{
    let a: i32 = if obj.enchantment < 0 { -(obj.enchantment as i32) } else { obj.enchantment as i32 };
    match effect {
        CursedEffect::Fumbling => 25 + (if a * 5 < 15 { a * 5 } else { 15 }),
        CursedEffect::WeaponPenalty => -(if a + 1 < 5 { a + 1 } else { 5 }),
        CursedEffect::ArmorPenalty => 1 + (if a / 2 < 2 { a / 2 } else { 2 }),
        CursedEffect::Encumbrance => 1,
        CursedEffect::StatsLower => 1 + (if a / 5 < 1 { a / 5 } else { 1 }),
        CursedEffect::Weakness => 20,
        CursedEffect::Slowness => 20,
        CursedEffect::Clumsiness => 2,
        CursedEffect::ForcedEquip => 1,
    }
}

/// `max(v, 3)`.
pub open spec fn at_least_three(v: int) -> int {
    if v > 3 { v } else { 3 }
}

/// The hero after a curse consequence took effect: armor penalties worsen
/// armor class, encumbrance costs movement (at least 1 is left), lowered
/// attributes and clumsiness cost attribute points (down to 3); other effects
/// act elsewhere and leave the hero as they are.
pub open spec fn cursed_effect_applied(old: You, new: You, c: CursedConsequence) -> bool {
    match c.effect {
        CursedEffect::ArmorPenalty => new == (You { armor_class: (old.armor_class + (c.magnitude as i8)) as i8, ..old }),
        CursedEffect::Encumbrance => new == (You {
            movement_points: (if old.movement_points - c.magnitude > 1 { old.movement_points - c.magnitude } else { 1 }) as i16,
            ..old }),
        CursedEffect::StatsLower => match c.affected_attribute {
            Some(a) => new == (You { attr_current: old.attr_current.with(a,
                at_least_three(old.attr_current.value(a) - c.magnitude) as i8), ..old }),
            None => new == old,
        },
        CursedEffect::Clumsiness => new == (You { attr_current: old.attr_current.with(Attribute::Dexterity,
            at_least_three(old.attr_current.value(Attribute::Dexterity) - c.magnitude) as i8), ..old }),
        _ => new == old,
    }
}

/// Apply a curse consequence to the hero.
pub fn apply_cursed_effect(player: &mut You, consequence: &CursedConsequence)
    requires
        consequence.effect == CursedEffect::ArmorPenalty ==> i8::MIN <= old(player).armor_class
            + (consequence.magnitude as i8) <= i8::MAX,
        consequence.effect == CursedEffect::Encumbrance ==> i32::MIN <= old(player).movement_points
            - consequence.magnitude <= i32::MAX,
        consequence.effect == CursedEffect::StatsLower && consequence.affected_attribute is Some ==>
            i32::MIN <= old(player).attr_current.value(consequence.affected_attribute.unwrap())
                - consequence.magnitude <= i32::MAX,
        consequence.effect == CursedEffect::Clumsiness ==> i32::MIN <= old(player).attr_current.value(
            Attribute::Dexterity) - consequence.magnitude <= i32::MAX,
    ensures
        cursed_effect_applied(*old(player), *final(player), *consequence),
{
    match consequence.effect {
        CursedEffect::ArmorPenalty => {
            player.armor_class = player.armor_class + consequence.magnitude as i8;
        },
        CursedEffect::Encumbrance => {
            let m = player.movement_points as i32 - consequence.magnitude;
            player.movement_points = (if m > 1 { m } else { 1 }) as i16;
        },
        CursedEffect::StatsLower => {
            if let Some(attr) = consequence.affected_attribute {
                let current = player.attr_current.get(attr) as i32;
                let reduced = current - consequence.magnitude;
                player.attr_current.set(attr, (if reduced > 3 { reduced } else { 3 }) as i8);
            }
        },
        CursedEffect::Clumsiness => {
            let current = player.attr_current.get(Attribute::Dexterity) as i32;
            let reduced = current - consequence.magnitude;
            player.attr_current.set(Attribute::Dexterity, (if reduced > 3 { reduced } else { 3 }) as i8);
        },
        _ => {},
    }
}

/// Check whether an action is fumbled: `fumble_chance` percent.
pub fn check_fumble(fumble_chance: i32, rng: &mut GameRng) -> (r: bool)
    ensures
        r == (rn2_at(old(rng)@, 100) < fumble_chance as u32),
        final(rng)@ == step(old(rng)@),
{
    rng.percent(fumble_chance as u32)
}

/// Lower-case name of an attribute.
pub open spec fn attribute_lower(a: Attribute) -> Seq<char> {
    match a {
        Attribute::Strength => "strength"@,
        Attribute::Intelligence => "intelligence"@,
        Attribute::Wisdom => "wisdom"@,
        Attribute::Dexterity => "dexterity"@,
        Attribute::Constitution => "constitution"@,
        Attribute::Charisma => "charisma"@,
    }
}

fn attribute_lower_name(a: Attribute) -> (s: &'static str)
    ensures
        s@ == attribute_lower(a),
{
    match a {
        Attribute::Strength => "strength",
        Attribute::Intelligence => "intelligence",
        Attribute::Wisdom => "wisdom",
        Attribute::Dexterity => "dexterity",
        Attribute::Constitution => "constitution",
        Attribute::Charisma => "charisma",
    }
}

/// The message shown when a curse consequence strikes.
pub open spec fn curse_message(c: CursedConsequence) -> Seq<char> {
    let d = effect_description(c.effect);
    match c.effect {
        CursedEffect::Fumbling => d + "! You fumble your grip."@,
        CursedEffect::WeaponPenalty => d + ". Your attacks are less effective."@,
        CursedEffect::ArmorPenalty => d + "! Your defense is compromised."@,
        CursedEffect::Encumbrance => d + ". You move more slowly."@,
        CursedEffect::StatsLower => match c.affected_attribute {
            Some(a) => d + "! Your "@ + attribute_lower(a) + " is reduced."@,
            None => d,
        },
        CursedEffect::ForcedEquip => d + "! You cannot remove it!"@,
        CursedEffect::Weakness => d + ". Your strength fails."@,
        CursedEffect::Slowness => d + ". Your movements become sluggish."@,
        CursedEffect::Clumsiness => d + ". You feel uncoordinated."@,
    }
}

/// Get the message for a curse consequence taking effect.
pub fn cursed_effect_message(consequence: &CursedConsequence) -> (s: String)
    ensures
        s@ == curse_message(*consequence),
{
    let mut s = String::from_str(consequence.effect.description());
    match consequence.effect {
        CursedEffect::Fumbling => s.append("! You fumble your grip."),
        CursedEffect::WeaponPenalty => s.append(". Your attacks are less effective."),
        CursedEffect::ArmorPenalty => s.append("! Your defense is compromised."),
        CursedEffect::Encumbrance => s.append(". You move more slowly."),
        CursedEffect::StatsLower => {
            if let Some(attr) = consequence.affected_attribute {
                s.append("! Your ");
                s.append(attribute_lower_name(attr));
                s.append(" is reduced.");
            }
        },
        CursedEffect::ForcedEquip => s.append("! You cannot remove it!"),
        CursedEffect::Weakness => s.append(". Your strength fails."),
        CursedEffect::Slowness => s.append(". Your movements become sluggish."),
        CursedEffect::Clumsiness => s.append(". You feel uncoordinated."),
    }
    s
}

/// Whether a curse belongs to an item other than `id`.
pub open spec fn not_of_item(id: u32) -> spec_fn(CursedConsequence) -> bool {
    |c: CursedConsequence| c.object_id != id
}

/// Once an item's curses are lifted none of them is left, and every curse of
/// another item stays.
pub proof fn lemma_lifted_curses_gone(s: Seq<CursedConsequence>, id: u32)
    ensures
        forall|i: int| 0 <= i < s.filter(not_of_item(id)).len() ==> (#[trigger] s.filter(not_of_item(id))[i]).object_id
            != id,
        forall|i: int| 0 <= i < s.len() && (#[trigger] s[i]).object_id != id ==> s.filter(not_of_item(id)).contains(
            s[i]),
{
    let pred = not_of_item(id);
    assert forall|i: int| 0 <= i < s.filter(pred).len() implies (#[trigger] s.filter(pred)[i]).object_id != id by {
        s.lemma_filter_pred(pred, i);
    }
    assert forall|i: int| 0 <= i < s.len() && (#[trigger] s[i]).object_id != id implies s.filter(pred).contains(
        s[i]) by {
        s.lemma_filter_contains(pred, i);
    }
}

} // verus!
