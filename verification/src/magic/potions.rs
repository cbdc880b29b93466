//! Lasting potion effects: potency, stacking, interactions between effects,
//! and what an effect does to the hero.

use vstd::prelude::*;
use crate::num::trunc_div;
use crate::player::{Attribute, Attributes, Property, You, prop_index};

verus! {

/// How strong a potion is.
#[derive(Debug, Clone, Copy, PartialEq, Eq, Structural)]
pub enum PotionPotency {
    Diluted,
    Normal,
    Potent,
    Powerful,
}

/// A potency's strength in halves: half, once, one and a half, twice.
pub open spec fn potency_halves(p: PotionPotency) -> int {
    match p {
        PotionPotency::Diluted => 1,
        PotionPotency::Normal => 2,
        PotionPotency::Potent => 3,
        PotionPotency::Powerful => 4,
    }
}

/// Turns a potency adds to an effect's duration.
pub open spec fn potency_duration(p: PotionPotency) -> int {
    match p {
        PotionPotency::Diluted => -50,
        PotionPotency::Normal => 0,
        PotionPotency::Potent => 100,
        PotionPotency::Powerful => 250,
    }
}

impl PotionPotency {
    /// Turns added to an effect's duration.
    pub fn duration_bonus(&self) -> (d: i32)
        ensures
            d == potency_duration(*self),
    {
        match self {
            PotionPotency::Diluted => -50,
            PotionPotency::Normal => 0,
            PotionPotency::Potent => 100,
            PotionPotency::Powerful => 250,
        }
    }

    /// The potency's strength in halves.
    fn halves(&self) -> (h: i32)
        ensures
            h == potency_halves(*self),
    {
        match self {
            PotionPotency::Diluted => 1,
            PotionPotency::Normal => 2,
            PotionPotency::Potent => 3,
            PotionPotency::Powerful => 4,
        }
    }
}

/// Kinds of lasting potion effects.
#[derive(Debug, Clone, Copy, PartialEq, Eq, Hash, Structural)]
pub enum PotionEffectType {
    Healing,
    ExtraHealing,
    Regeneration,
    Gain,
    Strength,
    Dexterity,
    Constitution,
    Intelligence,
    Wisdom,
    Charisma,
    Speed,
    Invisibility,
    Levitation,
    Polymorph,
    Confusion,
    Poison,
}

/// A potion effect acting on the hero.
#[derive(Debug, Clone, Copy)]
pub struct ActivePotionEffect {
    pub effect_type: PotionEffectType,
    /// Turns remaining.
    pub duration: i32,
    pub magnitude: i32,
    pub potency: PotionPotency,
}

/// A base magnitude scaled by a potency, rounded toward zero.
pub open spec fn scaled_magnitude(magnitude: int, p: PotionPotency) -> int {
    trunc_div(magnitude * potency_halves(p), 2)
}

impl ActivePotionEffect {
    /// An effect whose magnitude is the base magnitude scaled by the potency
    /// (half, once, one and a half or twice), rounded toward zero. The
    /// magnitude is bounded so that the scaling is exact.
    pub fn new(effect_type: PotionEffectType, duration: i32, magnitude: i32, potency: PotionPotency) -> (e: Self)
        requires
            -0x40_0000 <= magnitude <= 0x40_0000,
        ensures
            e.effect_type == effect_type,
            e.duration == duration,
            e.magnitude == scaled_magnitude(magnitude as int, potency),
            e.potency == potency,
    {
        let product: i32 = magnitude * potency.halves();
        let scaled: i32 = if product >= 0 { product / 2 } else { -((-product) / 2) };
        ActivePotionEffect { effect_type, duration, magnitude: scaled, potency }
    }
}

/// The effects acting on the hero.
#[derive(Debug, Clone)]
pub struct PotionEffectTracker {
    pub active_effects: Vec<ActivePotionEffect>,
}

/// The effects `s` one turn later: each lasts a turn less, and those that
/// run out are gone.
pub open spec fn ticked(s: Seq<ActivePotionEffect>) -> Seq<ActivePotionEffect>
    decreases s.len(),
{
    if s.len() == 0 {
        s
    } else {
        let e = s.last();
        let rest = ticked(s.drop_last());
        if e.duration - 1 > 0 {
            rest.push(ActivePotionEffect { duration: (e.duration - 1) as i32, ..e })
        } else {
            rest
        }
    }
}

/// The number of effects of kind `t` in `s`.
pub open spec fn count_of(s: Seq<ActivePotionEffect>, t: PotionEffectType) -> nat
    decreases s.len(),
{
    if s.len() == 0 {
        0
    } else {
        count_of(s.drop_last(), t) + (if s.last().effect_type == t { 1nat } else { 0 })
    }
}

/// The index of the first effect of kind `t` in `s`, if any.
pub open spec fn first_of(s: Seq<ActivePotionEffect>, t: PotionEffectType) -> Option<int> {
    if exists|i: int| 0 <= i < s.len() && (#[trigger] s[i]).effect_type == t {
        Some(choose|i: int| 0 <= i < s.len() && (#[trigger] s[i]).effect_type == t && forall|j: int|
            0 <= j < i ==> (#[trigger] s[j]).effect_type != t)
    } else {
        None
    }
}

impl Default for PotionEffectTracker {
    /// No effects.
    fn default() -> (t: Self)
        ensures
            t.active_effects@.len() == 0,
    {
        PotionEffectTracker::new()
    }
}

impl PotionEffectTracker {
    /// No effects.
    pub fn new() -> (t: Self)
        ensures
            t.active_effects@.len() == 0,
    {
        PotionEffectTracker { active_effects: Vec::new() }
    }

    /// Add an effect after the others.
    pub fn add_effect(&mut self, effect: ActivePotionEffect)
        ensures
            final(self).active_effects@ == old(self).active_effects@.push(effect),
    {
        self.active_effects.push(effect);
    }

    /// Whether an effect of kind `effect_type` acts.
    pub fn has_effect(&self, effect_type: PotionEffectType) -> (r: bool)
        ensures
            r == exists|i: int| 0 <= i < self.active_effects@.len() && (#[trigger] self.active_effects@[i]).effect_type
                == effect_type,
    {
        let mut i: usize = 0;
        while i < self.active_effects.len()
            invariant
                i <= self.active_effects@.len(),
                forall|j: int| 0 <= j < i ==> (#[trigger] self.active_effects@[j]).effect_type != effect_type,
            decreases self.active_effects@.len() - i,
        {
            if self.active_effects[i].effect_type == effect_type {
                return true;
            }
            i = i + 1;
        }
        false
    }

    /// The magnitude of the first effect of kind `effect_type`, if any acts.
    pub fn get_effect_magnitude(&self, effect_type: PotionEffectType) -> (r: Option<i32>)
        ensures
            match first_of(self.active_effects@, effect_type) {
                Some(i) => r == Some(self.active_effects@[i].magnitude),
                None => r is None,
            },
    {
        let ghost s = self.active_effects@;
        let mut i: usize = 0;
        while i < self.active_effects.len()
            invariant
                s == self.active_effects@,
                i <= s.len(),
                forall|j: int| 0 <= j < i ==> (#[trigger] s[j]).effect_type != effect_type,
            decreases s.len() - i,
        {
            if self.active_effects[i].effect_type == effect_type {
                proof {
                    let k = choose|k: int| 0 <= k < s.len() && (#[trigger] s[k]).effect_type == effect_type
                        && forall|j: int| 0 <= j < k ==> (#[trigger] s[j]).effect_type != effect_type;
                    assert(s[i as int].effect_type == effect_type);
                    if k < i {
                        assert(s[k].effect_type != effect_type);
                    }
                    if k > i {
                        assert(s[i as int].effect_type != effect_type);
                    }
                }
                return Some(self.active_effects[i].magnitude);
            }
            i = i + 1;
        }
        None
    }

    /// A turn passes: each effect lasts one turn less, and those that run out
    /// are gone.
    pub fn tick_effects(&mut self)
        requires
            forall|i: int| 0 <= i < old(self).active_effects@.len() ==> (#[trigger] old(self).active_effects@[i]).duration
                > i32::MIN,
        ensures
            final(self).active_effects@ == ticked(old(self).active_effects@),
    {
        let ghost s = self.active_effects@;
        let mut kept: Vec<ActivePotionEffect> = Vec::new();
        let mut i: usize = 0;
        while i < self.active_effects.len()
            invariant
                s == self.active_effects@,
                i <= s.len(),
                forall|j: int| 0 <= j < s.len() ==> (#[trigger] s[j]).duration > i32::MIN,
                kept@ == ticked(s.take(i as int)),
            decreases s.len() - i,
        {
            let e = self.active_effects[i];
            let d = e.duration - 1;
            proof {
                assert(s.take(i as int + 1).drop_last() =~= s.take(i as int));
                assert(s.take(i as int + 1).last() == e);
            }
            if d > 0 {
                kept.push(ActivePotionEffect { duration: d, ..e });
            }
            i = i + 1;
        }
        proof {
            assert(s.take(s.len() as int) =~= s);
        }
        self.active_effects = kept;
    }

    /// How many effects of kind `effect_type` act.
    pub fn count_effect(&self, effect_type: PotionEffectType) -> (n: usize)
        ensures
            n == count_of(self.active_effects@, effect_type),
    {
        let ghost s = self.active_effects@;
        let mut n: usize = 0;
        let mut i: usize = 0;
        while i < self.active_effects.len()
            invariant
                s == self.active_effects@,
                i <= s.len(),
                n == count_of(s.take(i as int), effect_type),
                n <= i,
            decreases s.len() - i,
        {
            proof {
                assert(s.take(i as int + 1).drop_last() =~= s.take(i as int));
            }
            if self.active_effects[i].effect_type == effect_type {
                n = n + 1;
            }
            i = i + 1;
        }
        proof {
            assert(s.take(s.len() as int) =~= s);
        }
        n
    }
}

/// The potency of a potion by its blessing and age: cursed ones are diluted;
/// blessed ones powerful while younger than 1000 turns, else potent; others
/// normal, and diluted once older than 5000 turns.
pub open spec fn potency_of(blessed: bool, cursed: bool, age: int) -> PotionPotency {
    if cursed {
        PotionPotency::Diluted
    } else if blessed {
        if age < 1000 { PotionPotency::Powerful } else { PotionPotency::Potent }
    } else if age > 5000 {
        PotionPotency::Diluted
    } else {
        PotionPotency::Normal
    }
}

/// The potency of a potion.
pub fn determine_potion_potency(blessed: bool, cursed: bool, age: i64) -> (p: PotionPotency)
    ensures
        p == potency_of(blessed, cursed, age as int),
{
    if cursed {
        PotionPotency::Diluted
    } else if blessed {
        if age < 1000 { PotionPotency::Powerful } else { PotionPotency::Potent }
    } else if age > 5000 {
        PotionPotency::Diluted
    } else {
        PotionPotency::Normal
    }
}

/// The message of a new effect of kind `a` meeting an effect of kind `b`, if
/// the two clash.
pub open spec fn clash(a: PotionEffectType, b: PotionEffectType) -> Option<Seq<char>> {
    if a == PotionEffectType::Strength && b == PotionEffectType::Poison {
        Some("The potions conflict! You feel sick."@)
    } else if a == PotionEffectType::Speed && b == PotionEffectType::Poison {
        Some("The speed potion turns sour!"@)
    } else if a == PotionEffectType::Invisibility && b == PotionEffectType::Levitation {
        Some("The potions mix into a shimmer."@)
    } else if a == PotionEffectType::Confusion && b == PotionEffectType::Invisibility {
        Some("You feel confused about where you are."@)
    } else {
        None
    }
}

/// The first clash of a new effect of kind `a` with the effects `s`, in
/// their order.
pub open spec fn first_clash(a: PotionEffectType, s: Seq<ActivePotionEffect>) -> Option<Seq<char>>
    decreases s.len(),
{
    if s.len() == 0 {
        None
    } else {
        match clash(a, s[0].effect_type) {
            Some(m) => Some(m),
            None => first_clash(a, s.drop_first()),
        }
    }
}

/// The message of a new effect of kind `a` meeting one of kind `b`, if they
/// clash.
fn clash_message(a: PotionEffectType, b: PotionEffectType) -> (r: Option<&'static str>)
    ensures
        match clash(a, b) {
            Some(m) => r matches Some(x) && x@ == m,
            None => r is None,
        },
{
    match (a, b) {
        (PotionEffectType::Strength, PotionEffectType::Poison) => Some("The potions conflict! You feel sick."),
        (PotionEffectType::Speed, PotionEffectType::Poison) => Some("The speed potion turns sour!"),
        (PotionEffectType::Invisibility, PotionEffectType::Levitation) => Some("The potions mix into a shimmer."),
        (PotionEffectType::Confusion, PotionEffectType::Invisibility) => Some(
            "You feel confused about where you are.",
        ),
        _ => None,
    }
}

/// How a new effect of kind `new_effect` reacts with the effects already
/// acting: the message of the first clash, if any.
pub fn check_potion_interaction(new_effect: PotionEffectType, existing_effects: &[ActivePotionEffect]) -> (r: Option<
    String,
>)
    ensures
        match first_clash(new_effect, existing_effects@) {
            Some(m) => r matches Some(x) && x@ == m,
            None => r is None,
        },
{
    let ghost s = existing_effects@;
    assert(s.skip(0) =~= s);
    let mut i: usize = 0;
    while i < existing_effects.len()
        invariant
            s == existing_effects@,
            i <= s.len(),
            first_clash(new_effect, s) == first_clash(new_effect, s.skip(i as int)),
        decreases s.len() - i,
    {
        proof {
            assert(s.skip(i as int).drop_first() =~= s.skip(i as int + 1));
        }
        match clash_message(new_effect, existing_effects[i].effect_type) {
            Some(m) => {
                return Some(String::from_str(m));
            },
            None => {},
        }
        i = i + 1;
    }
    None
}

/// The attribute an effect of kind `t` raises, if any.
pub open spec fn effect_attribute(t: PotionEffectType) -> Option<Attribute> {
    match t {
        PotionEffectType::Strength => Some(Attribute::Strength),
        PotionEffectType::Dexterity => Some(Attribute::Dexterity),
        PotionEffectType::Constitution => Some(Attribute::Constitution),
        PotionEffectType::Intelligence => Some(Attribute::Intelligence),
        PotionEffectType::Wisdom => Some(Attribute::Wisdom),
        PotionEffectType::Charisma => Some(Attribute::Charisma),
        _ => None,
    }
}

/// The property an effect of kind `t` makes intrinsic, if any.
pub open spec fn effect_property(t: PotionEffectType) -> Option<Property> {
    match t {
        PotionEffectType::Regeneration => Some(Property::Regeneration),
        PotionEffectType::Invisibility => Some(Property::Invisibility),
        PotionEffectType::Levitation => Some(Property::Levitation),
        _ => None,
    }
}

/// What a beneficial effect `e` does to the hero: `old` before, `new` after.
/// Healing adds its magnitude up to the maximum, extra healing heals fully,
/// an attribute effect raises its attribute by one up to 25, speed adds five
/// movement points up to 50, and regeneration, invisibility and levitation
/// become intrinsic. Harmful kinds change nothing here.
pub open spec fn effect_applied(old: You, new: You, e: ActivePotionEffect) -> bool {
    match effect_attribute(e.effect_type) {
        Some(a) => new == (You {
            attr_current: old.attr_current.with(a, (if old.attr_current.value(a) + 1 < 25 {
                old.attr_current.value(a) + 1
            } else {
                25
            }) as i8),
            ..old
        }),
        None => match effect_property(e.effect_type) {
            Some(q) => {
                &&& new == (You { properties: new.properties, ..old })
                &&& new.properties.wf()
                &&& new.properties.intrinsic@ == old.properties.intrinsic@.update(prop_index(q), true)
                &&& new.properties.timeout@ == old.properties.timeout@
            },
            None => if e.effect_type == PotionEffectType::Healing {
                new == (You { hp: (if old.hp + e.magnitude < old.hp_max { old.hp + e.magnitude } else {
                    old.hp_max as int }) as i32, ..old })
            } else if e.effect_type == PotionEffectType::ExtraHealing {
                new == (You { hp: old.hp_max, ..old })
            } else if e.effect_type == PotionEffectType::Speed {
                new == (You { movement_points: (if old.movement_points + 5 < 50 { old.movement_points + 5 } else {
                    50 }) as i16, ..old })
            } else {
                new == old
            },
        },
    }
}

/// Apply a beneficial effect to the hero.
pub fn apply_potion_effect(player: &mut You, effect: &ActivePotionEffect)
    requires
        old(player).wf(),
        effect.effect_type == PotionEffectType::Healing ==> i32::MIN <= old(player).hp + effect.magnitude
            <= i32::MAX,
        effect.effect_type == PotionEffectType::Speed ==> old(player).movement_points <= i16::MAX - 5,
        effect_attribute(effect.effect_type) matches Some(a) ==> old(player).attr_current.value(a) < 127,
    ensures
        final(player).wf(),
        effect_applied(*old(player), *final(player), *effect),
{
    let attr: Option<Attribute> = match effect.effect_type {
        PotionEffectType::Strength => Some(Attribute::Strength),
        PotionEffectType::Dexterity => Some(Attribute::Dexterity),
        PotionEffectType::Constitution => Some(Attribute::Constitution),
        PotionEffectType::Intelligence => Some(Attribute::Intelligence),
        PotionEffectType::Wisdom => Some(Attribute::Wisdom),
        PotionEffectType::Charisma => Some(Attribute::Charisma),
        _ => None,
    };
    match attr {
        Some(a) => {
            let current = player.attr_current.get(a);
            let raised: i8 = if current + 1 < 25 { current + 1 } else { 25 };
            player.attr_current.set(a, raised);
        },
        None => match effect.effect_type {
            PotionEffectType::Healing => {
                let h = player.hp + effect.magnitude;
                player.hp = if h < player.hp_max { h } else { player.hp_max };
            },
            PotionEffectType::ExtraHealing => {
                player.hp = player.hp_max;
            },
            PotionEffectType::Regeneration => {
                player.properties.grant_intrinsic(Property::Regeneration);
            },
            PotionEffectType::Speed => {
                let m = player.movement_points + 5;
                player.movement_points = if m < 50 { m } else { 50 };
            },
            PotionEffectType::Invisibility => {
                player.properties.grant_intrinsic(Property::Invisibility);
            },
            PotionEffectType::Levitation => {
                player.properties.grant_intrinsic(Property::Levitation);
            },
            _ => {},
        },
    }
}

/// The adverb of a potency in effect messages.
pub open spec fn potency_word(p: PotionPotency) -> Seq<char> {
    match p {
        PotionPotency::Diluted => "faintly"@,
        PotionPotency::Normal => ""@,
        PotionPotency::Potent => "strongly"@,
        PotionPotency::Powerful => "powerfully"@,
    }
}

/// The message when an effect of kind `t` and potency `p` takes hold.
pub open spec fn effect_message(t: PotionEffectType, p: PotionPotency) -> Seq<char> {
    let w = potency_word(p);
    match t {
        PotionEffectType::Healing => "You feel "@ + w + " better."@,
        PotionEffectType::ExtraHealing => "You feel completely healed!"@,
        PotionEffectType::Regeneration => "Your wounds "@ + w + " regenerate."@,
        PotionEffectType::Strength => "You feel "@ + w + " stronger."@,
        PotionEffectType::Speed => "You feel "@ + w + " faster."@,
        PotionEffectType::Invisibility => "You become "@ + w + " invisible."@,
        PotionEffectType::Levitation => "You feel "@ + w + " light."@,
        PotionEffectType::Confusion => "Everything spins "@ + w + "!"@,
        PotionEffectType::Poison => "You feel "@ + w + " poisoned."@,
        _ => "You quaff the potion."@,
    }
}

/// The message when an effect takes hold.
pub fn get_effect_message(effect_type: PotionEffectType, potency: PotionPotency) -> (s: String)
    ensures
        s@ == effect_message(effect_type, potency),
{
    let word: &str = match potency {
        PotionPotency::Diluted => "faintly",
        PotionPotency::Normal => "",
        PotionPotency::Potent => "strongly",
        PotionPotency::Powerful => "powerfully",
    };
    let (before, after): (&str, &str) = match effect_type {
        PotionEffectType::Healing => ("You feel ", " better."),
        PotionEffectType::ExtraHealing => {
            return String::from_str("You feel completely healed!");
        },
        PotionEffectType::Regeneration => ("Your wounds ", " regenerate."),
        PotionEffectType::Strength => ("You feel ", " stronger."),
        PotionEffectType::Speed => ("You feel ", " faster."),
        PotionEffectType::Invisibility => ("You become ", " invisible."),
        PotionEffectType::Levitation => ("You feel ", " light."),
        PotionEffectType::Confusion => ("Everything spins ", "!"),
        PotionEffectType::Poison => ("You feel ", " poisoned."),
        _ => {
            return String::from_str("You quaff the potion.");
        },
    };
    let mut s = String::from_str(before);
    s.append(word);
    s.append(after);
    s
}

/// A turn passing never adds effects, and every effect left still has turns
/// to run.
pub proof fn lemma_tick_shrinks(s: Seq<ActivePotionEffect>)
    ensures
        ticked(s).len() <= s.len(),
        forall|i: int| 0 <= i < ticked(s).len() ==> (#[trigger] ticked(s)[i]).duration > 0,
    decreases s.len(),
{
    if s.len() > 0 {
        lemma_tick_shrinks(s.drop_last());
    }
}

} // verus!
