//! Enchanting and disenchanting weapons and armor, recharging wands, and
//! what enchantment is worth in combat and protection.

use vstd::prelude::*;
use vstd::string::*;
use crate::object::{BucStatus, Object, ObjectClass, class_noun};
use crate::rng::{GameRng, rn2_at, step};
use crate::num::{clamp_int, sat_add_i8, sat_sub_i8};
use crate::text::{int_str, nat_str, push_int, push_nat, views};

verus! {

/// Result of an enchantment operation.
#[derive(Debug, Clone)]
pub struct EnchantmentResult {
    pub messages: Vec<String>,
    pub success: bool,
    pub new_enchantment: i8,
    pub old_enchantment: i8,
}

impl EnchantmentResult {
    /// No messages, no success, both levels 0.
    pub fn new() -> (r: Self)
        ensures
            r.messages@.len() == 0,
            !r.success,
            r.new_enchantment == 0,
            r.old_enchantment == 0,
    {
        EnchantmentResult { messages: Vec::new(), success: false, new_enchantment: 0, old_enchantment: 0 }
    }

    /// The result with a message added.
    pub fn with_message(self, msg: &str) -> (r: Self)
        ensures
            views(r.messages@) == views(self.messages@).push(msg@),
            r.success == self.success,
            r.new_enchantment == self.new_enchantment,
            r.old_enchantment == self.old_enchantment,
    {
        let mut r = self;
        let ghost before = r.messages@;
        r.messages.push(String::from_str(msg));
        proof {
            assert(views(r.messages@) =~= views(before).push(msg@));
        }
        r
    }
}

impl Default for EnchantmentResult {
    fn default() -> (r: Self)
        ensures
            r.messages@.len() == 0,
            !r.success,
            r.new_enchantment == 0,
            r.old_enchantment == 0,
    {
        Self::new()
    }
}

/// Whether objects of a class take enchantment.
pub open spec fn enchantable(c: ObjectClass) -> bool {
    c == ObjectClass::Weapon || c == ObjectClass::Armor || c == ObjectClass::Wand || c == ObjectClass::Ring
}

/// Check if an item can be enchanted: weapons, armor, wands and rings.
pub fn can_enchant(obj: &Object) -> (r: bool)
    ensures
        r == enchantable(obj.class),
{
    matches!(obj.class, ObjectClass::Weapon | ObjectClass::Armor | ObjectClass::Wand | ObjectClass::Ring)
}

/// `name` followed by `tail`, as a message.
fn name_then(obj: &Object, tail: &str) -> (s: String)
    ensures
        s@ == "the "@ + class_noun(obj.class) + tail@,
{
    let mut s = obj.display_name();
    s.append(tail);
    s
}

/// Success chance of enchanting a weapon at enchantment `e`, in percent.
pub open spec fn weapon_chance(e: int) -> u32 {
    if e >= 5 { 40 } else if e >= 3 { 60 } else { 80 }
}

/// Success chance of enchanting armor at enchantment `e`, in percent.
pub open spec fn armor_chance(e: int) -> u32 {
    if e >= 5 { 30 } else if e >= 3 { 50 } else { 70 }
}

/// A result reporting that the item cannot be enchanted.
pub open spec fn refused(r: EnchantmentResult, o: Object) -> bool {
    &&& views(r.messages@) == seq!["That item cannot be enchanted."@]
    &&& !r.success
    &&& r.old_enchantment == o.enchantment
    &&& r.new_enchantment == 0
}

/// Enchant a weapon (or other enchantable item): success is 80% below +3,
/// 60% below +5 and 40% from +5; success adds one (saturating) and removes
/// a curse; failure may make a cursed item one point worse (half the time).
pub fn enchant_weapon(obj: &mut Object, rng: &mut GameRng) -> (result: EnchantmentResult)
    ensures
        !enchantable(old(obj).class) ==> refused(result, *old(obj)) && *final(obj) == *old(obj)
            && final(rng)@ == old(rng)@,
        enchantable(old(obj).class) ==> ({
            let s = old(rng)@;
            let e = old(obj).enchantment as int;
            let ok = rn2_at(s, 100) < weapon_chance(e);
            let worse = !ok && old(obj).buc == BucStatus::Cursed && rn2_at(step(s), 100) < 50;
            let name = "the "@ + class_noun(old(obj).class);
            &&& result.old_enchantment == old(obj).enchantment
            &&& result.success == ok
            &&& result.new_enchantment == final(obj).enchantment
            &&& final(obj).enchantment == (if ok { clamp_int(e + 1, -128, 127) }
                else if worse { clamp_int(e - 1, -128, 127) } else { e })
            &&& *final(obj) == (Object { enchantment: final(obj).enchantment, buc: final(obj).buc, ..*old(obj) })
            &&& final(obj).buc == (if ok && old(obj).buc == BucStatus::Cursed { BucStatus::Uncursed } else { old(obj).buc })
            &&& final(rng)@ == (if !ok && old(obj).buc == BucStatus::Cursed { step(step(s)) } else { step(s) })
            &&& views(result.messages@) == if ok {
                if old(obj).buc == BucStatus::Blessed { seq![name + " glows brightly!"@] }
                else if old(obj).buc == BucStatus::Cursed { seq![name + " glows faintly."@] }
                else { seq![name + " glows!"@] }
            } else if worse {
                seq!["The enchantment fails!"@, "The item becomes more cursed."@]
            } else {
                seq!["The enchantment fails!"@]
            }
        }),
{
    let mut result = EnchantmentResult::new();
    result.old_enchantment = obj.enchantment;
    if !can_enchant(obj) {
        result = result.with_message("That item cannot be enchanted.");
        assert(views(result.messages@) =~= seq!["That item cannot be enchanted."@]);
        return result;
    }
    let success_chance: u32 = if obj.enchantment >= 5 { 40 } else if obj.enchantment >= 3 { 60 } else { 80 };
    if !rng.percent(success_chance) {
        result = result.with_message("The enchantment fails!");
        if obj.is_cursed() && rng.percent(50) {
            obj.enchantment = sat_sub_i8(obj.enchantment, 1);
            result = result.with_message("The item becomes more cursed.");
            assert(views(result.messages@) =~= seq!["The enchantment fails!"@, "The item becomes more cursed."@]);
        } else {
            assert(views(result.messages@) =~= seq!["The enchantment fails!"@]);
        }
        result.new_enchantment = obj.enchantment;
        return result;
    }
    obj.enchantment = sat_add_i8(obj.enchantment, 1);
    result.success = true;
    result.new_enchantment = obj.enchantment;
    let msg = if obj.is_blessed() {
        name_then(obj, " glows brightly!")
    } else if obj.is_cursed() {
        let m = name_then(obj, " glows faintly.");
        obj.buc = BucStatus::Uncursed;
        m
    } else {
        name_then(obj, " glows!")
    };
    let ghost mv = msg@;
    result.messages.push(msg);
    assert(views(result.messages@) =~= seq![mv]);
    result
}

/// Enchant armor: success is 70% below +3, 50% below +5 and 30% from +5,
/// and adds one (saturating).
pub fn enchant_armor(obj: &mut Object, rng: &mut GameRng) -> (result: EnchantmentResult)
    ensures
        !enchantable(old(obj).class) ==> refused(result, *old(obj)) && *final(obj) == *old(obj)
            && final(rng)@ == old(rng)@,
        enchantable(old(obj).class) ==> ({
            let e = old(obj).enchantment as int;
            let ok = rn2_at(old(rng)@, 100) < armor_chance(e);
            let name = "the "@ + class_noun(old(obj).class);
            &&& result.old_enchantment == old(obj).enchantment
            &&& result.success == ok
            &&& result.new_enchantment == final(obj).enchantment
            &&& *final(obj) == (Object { enchantment: final(obj).enchantment, ..*old(obj) })
            &&& final(obj).enchantment == (if ok { clamp_int(e + 1, -128, 127) } else { e })
            &&& final(rng)@ == step(old(rng)@)
            &&& views(result.messages@) == if !ok {
                seq!["The armor resists enchantment."@]
            } else if old(obj).buc == BucStatus::Blessed {
                seq![name + " shines brightly!"@]
            } else {
                seq![name + " glows slightly."@]
            }
        }),
{
    let mut result = EnchantmentResult::new();
    result.old_enchantment = obj.enchantment;
    if !can_enchant(obj) {
        result = result.with_message("That item cannot be enchanted.");
        assert(views(result.messages@) =~= seq!["That item cannot be enchanted."@]);
        return result;
    }
    let success_chance: u32 = if obj.enchantment >= 5 { 30 } else if obj.enchantment >= 3 { 50 } else { 70 };
    if !rng.percent(success_chance) {
        result = result.with_message("The armor resists enchantment.");
        assert(views(result.messages@) =~= seq!["The armor resists enchantment."@]);
        result.new_enchantment = obj.enchantment;
        return result;
    }
    obj.enchantment = sat_add_i8(obj.enchantment, 1);
    result.success = true;
    result.new_enchantment = obj.enchantment;
    let msg = if obj.is_blessed() { name_then(obj, " shines brightly!") } else { name_then(obj, " glows slightly.") };
    let ghost mv = msg@;
    result.messages.push(msg);
    assert(views(result.messages@) =~= seq![mv]);
    result
}

/// Disenchant an item by one point, down to -9 at the lowest.
pub fn disenchant(obj: &mut Object) -> (result: EnchantmentResult)
    ensures
        result.old_enchantment == old(obj).enchantment,
        old(obj).enchantment <= -9 ==> *final(obj) == *old(obj) && !result.success
            && result.new_enchantment == old(obj).enchantment
            && views(result.messages@) == seq!["The item cannot be disenchanted further."@],
        old(obj).enchantment > -9 ==> *final(obj) == (Object { enchantment: (old(obj).enchantment - 1) as i8, ..*old(obj) })
            && result.success && result.new_enchantment == old(obj).enchantment - 1
            && views(result.messages@) == seq!["the "@ + class_noun(old(obj).class) + " dims."@],
{
    let mut result = EnchantmentResult::new();
    result.old_enchantment = obj.enchantment;
    if obj.enchantment <= -9 {
        result = result.with_message("The item cannot be disenchanted further.");
        assert(views(result.messages@) =~= seq!["The item cannot be disenchanted further."@]);
        result.new_enchantment = obj.enchantment;
        return result;
    }
    obj.enchantment = sat_sub_i8(obj.enchantment, 1);
    result.success = true;
    result.new_enchantment = obj.enchantment;
    let msg = name_then(obj, " dims.");
    let ghost mv = msg@;
    result.messages.push(msg);
    assert(views(result.messages@) =~= seq![mv]);
    result
}

/// The damage bonus of an enchantment: its value when positive, else 0.
pub fn enchantment_to_damage_bonus(enchantment: i8) -> (b: i32)
    ensures
        b == (if enchantment > 0 { enchantment as int } else { 0 }),
{
    if enchantment > 0 { enchantment as i32 } else { 0 }
}

/// The armor class change of an armor enchantment (lower is better).
pub fn enchantment_to_ac_bonus(enchantment: i8) -> (b: i32)
    ensures
        b == -(enchantment as int),
{
    -(enchantment as i32)
}

/// Whether an item is enchanted past +10 after having been recharged.
pub fn is_over_enchanted(obj: &Object) -> (r: bool)
    ensures
        r == (obj.enchantment > 10 && obj.recharged > 0),
{
    obj.enchantment > 10 && obj.recharged > 0
}

/// Chance in percent that an enchantment is damaged.
pub open spec fn damage_chance(e: int) -> i32 {
    if e <= 0 { 0 } else if e <= 3 { 5 } else if e <= 6 { 10 } else { 20 }
}

/// Calculate the chance that an item's enchantment is damaged.
pub fn enchantment_damage_chance(obj: &Object) -> (c: i32)
    ensures
        c == damage_chance(obj.enchantment as int),
{
    if obj.enchantment <= 0 { 0 } else if obj.enchantment <= 3 { 5 } else if obj.enchantment <= 6 { 10 } else { 20 }
}

/// Damage an item's enchantment by `amount` (saturating) with its damage chance.
pub fn damage_enchantment(obj: &mut Object, amount: i8, rng: &mut GameRng) -> (r: bool)
    ensures
        r == (rn2_at(old(rng)@, 100) < damage_chance(old(obj).enchantment as int) as u32),
        final(rng)@ == step(old(rng)@),
        r ==> *final(obj) == (Object { enchantment: clamp_int(old(obj).enchantment - amount, -128, 127) as i8,
            ..*old(obj) }),
        !r ==> *final(obj) == *old(obj),
{
    let chance = enchantment_damage_chance(obj);
    if rng.percent(chance as u32) {
        obj.enchantment = sat_sub_i8(obj.enchantment, amount);
        true
    } else {
        false
    }
}

/// Recharge a wand: eight charges more and one recharge counted; a wand
/// recharged three times already crumbles to no charges instead.
pub fn recharge_wand(obj: &mut Object) -> (result: EnchantmentResult)
    requires
        old(obj).class == ObjectClass::Wand && old(obj).recharged < 3 ==> old(obj).enchantment <= 119,
    ensures
        result.old_enchantment == old(obj).enchantment,
        old(obj).class != ObjectClass::Wand ==> *final(obj) == *old(obj) && !result.success
            && result.new_enchantment == 0 && views(result.messages@) == seq!["That item cannot be recharged."@],
        old(obj).class == ObjectClass::Wand && old(obj).recharged >= 3 ==>
            *final(obj) == (Object { enchantment: 0, ..*old(obj) }) && !result.success && result.new_enchantment == 0
            && views(result.messages@) == seq!["The wand has been recharged too many times and crumbles."@],
        old(obj).class == ObjectClass::Wand && old(obj).recharged < 3 ==>
            *final(obj) == (Object { enchantment: (old(obj).enchantment + 8) as i8,
                recharged: (old(obj).recharged + 1) as u8, ..*old(obj) })
            && result.success == (old(obj).recharged == 0)
            && result.new_enchantment == old(obj).enchantment + 8
            && views(result.messages@) == seq!["the wand glows with power!"@],
{
    let mut result = EnchantmentResult::new();
    result.old_enchantment = obj.enchantment;
    if obj.class != ObjectClass::Wand {
        result = result.with_message("That item cannot be recharged.");
        assert(views(result.messages@) =~= seq!["That item cannot be recharged."@]);
        return result;
    }
    if obj.recharged >= 3 {
        result = result.with_message("The wand has been recharged too many times and crumbles.");
        assert(views(result.messages@) =~= seq!["The wand has been recharged too many times and crumbles."@]);
        obj.enchantment = 0;
        result.success = false;
        result.new_enchantment = 0;
        return result;
    }
    let success_chance: u32 = match obj.recharged {
        0 => 100,
        1 => 75,
        2 => 50,
        _ => 0,
    };
    result.success = success_chance == 100;
    obj.enchantment = obj.enchantment + 8;
    obj.recharged = obj.recharged + 1;
    result.new_enchantment = obj.enchantment;
    let msg = name_then(obj, " glows with power!");
    proof {
        reveal_strlit("the ");
        reveal_strlit(" glows with power!");
        reveal_strlit("wand");
        reveal_strlit("the wand glows with power!");
        assert(msg@ =~= "the wand glows with power!"@);
    }
    let ghost mv = msg@;
    result.messages.push(msg);
    assert(views(result.messages@) =~= seq![mv]);
    result
}

/// How an enchantment is written: `+n` when positive, `n` when negative,
/// `uncursed` when zero.
pub open spec fn enchantment_text(e: int) -> Seq<char> {
    if e > 0 { "+"@ + nat_str(e as nat) } else if e < 0 { int_str(e) } else { "uncursed"@ }
}

/// Describe an item's enchantment.
pub fn describe_enchantment(obj: &Object) -> (s: String)
    ensures
        s@ == enchantment_text(obj.enchantment as int),
{
    if obj.enchantment > 0 {
        let mut s = String::from_str("+");
        push_nat(&mut s, obj.enchantment as u64);
        s
    } else if obj.enchantment < 0 {
        let mut s = String::new();
        push_int(&mut s, obj.enchantment as i64);
        assert(s@ =~= int_str(obj.enchantment as int));
        s
    } else {
        String::from_str("uncursed")
    }
}

} // verus!
