//! The hero, as far as the magic rules read and change it: hit points and
//! energy, attributes, intrinsic properties with their timeouts, status
//! timeouts, luck, position, armor class and curses worn.

use vstd::prelude::*;
use crate::num::{clamp_int, sat_add_i8};
use crate::magic::property_binding::{PropertyBinding, no_bindings, table_contents};
use crate::magic::cursed_items::CursedItemTracker;

verus! {

/// The six attributes.
#[derive(Debug, Clone, Copy, PartialEq, Eq, Hash, Structural)]
pub enum Attribute {
    Strength,
    Intelligence,
    Wisdom,
    Dexterity,
    Constitution,
    Charisma,
}

/// Display name of an attribute.
pub open spec fn attribute_name(a: Attribute) -> Seq<char> {
    match a {
        Attribute::Strength => "Strength"@,
        Attribute::Intelligence => "Intelligence"@,
        Attribute::Wisdom => "Wisdom"@,
        Attribute::Dexterity => "Dexterity"@,
        Attribute::Constitution => "Constitution"@,
        Attribute::Charisma => "Charisma"@,
    }
}

impl Attribute {
    /// The attribute's name.
    pub fn name(&self) -> (s: &'static str)
        ensures
            s@ == attribute_name(*self),
    {
        match self {
            Attribute::Strength => "Strength",
            Attribute::Intelligence => "Intelligence",
            Attribute::Wisdom => "Wisdom",
            Attribute::Dexterity => "Dexterity",
            Attribute::Constitution => "Constitution",
            Attribute::Charisma => "Charisma",
        }
    }
}

/// A value for each attribute.
#[derive(Debug, Clone, Copy, PartialEq, Eq, Structural)]
pub struct Attributes {
    pub strength: i8,
    pub intelligence: i8,
    pub wisdom: i8,
    pub dexterity: i8,
    pub constitution: i8,
    pub charisma: i8,
}

impl Attributes {
    /// The value of attribute `a`.
    pub open spec fn value(&self, a: Attribute) -> i8 {
        match a {
            Attribute::Strength => self.strength,
            Attribute::Intelligence => self.intelligence,
            Attribute::Wisdom => self.wisdom,
            Attribute::Dexterity => self.dexterity,
            Attribute::Constitution => self.constitution,
            Attribute::Charisma => self.charisma,
        }
    }

    /// The values with attribute `a` set to `v`.
    pub open spec fn with(&self, a: Attribute, v: i8) -> Attributes {
        match a {
            Attribute::Strength => Attributes { strength: v, ..*self },
            Attribute::Intelligence => Attributes { intelligence: v, ..*self },
            Attribute::Wisdom => Attributes { wisdom: v, ..*self },
            Attribute::Dexterity => Attributes { dexterity: v, ..*self },
            Attribute::Constitution => Attributes { constitution: v, ..*self },
            Attribute::Charisma => Attributes { charisma: v, ..*self },
        }
    }

    /// Every attribute at `v`.
    pub fn uniform(v: i8) -> (a: Attributes)
        ensures
            forall|x: Attribute| a.value(x) == v,
    {
        Attributes { strength: v, intelligence: v, wisdom: v, dexterity: v, constitution: v, charisma: v }
    }

    /// Get the value of an attribute.
    pub fn get(&self, a: Attribute) -> (v: i8)
        ensures
            v == self.value(a),
    {
        match a {
            Attribute::Strength => self.strength,
            Attribute::Intelligence => self.intelligence,
            Attribute::Wisdom => self.wisdom,
            Attribute::Dexterity => self.dexterity,
            Attribute::Constitution => self.constitution,
            Attribute::Charisma => self.charisma,
        }
    }

    /// Set the value of an attribute.
    pub fn set(&mut self, a: Attribute, v: i8)
        ensures
            *final(self) == old(self).with(a, v),
    {
        match a {
            Attribute::Strength => self.strength = v,
            Attribute::Intelligence => self.intelligence = v,
            Attribute::Wisdom => self.wisdom = v,
            Attribute::Dexterity => self.dexterity = v,
            Attribute::Constitution => self.constitution = v,
            Attribute::Charisma => self.charisma = v,
        }
    }

    /// Change an attribute by `delta`, staying within the range of `i8`.
    pub fn modify(&mut self, a: Attribute, delta: i8)
        ensures
            *final(self) == old(self).with(a, clamp_int(old(self).value(a) + delta, -128, 127) as i8),
    {
        let v = sat_add_i8(self.get(a), delta);
        self.set(a, v);
    }
}

/// Intrinsic and timed properties.
#[derive(Debug, Clone, Copy, PartialEq, Eq, Hash, Structural)]
pub enum Property {
    FireResistance,
    ColdResistance,
    SleepResistance,
    DisintegrationResistance,
    ShockResistance,
    PoisonResistance,
    AcidResistance,
    StoneResistance,
    DrainResistance,
    MagicResistance,
    Reflection,
    SeeInvisible,
    Invisibility,
    Telepathy,
    Infravision,
    Xray,
    Speed,
    Levitation,
    Flying,
    Stealth,
    Regeneration,
    EnergyRegeneration,
    Protection,
    FreeAction,
    Teleportation,
    TeleportControl,
    PolymorphControl,
    Unchanging,
    Fumbling,
    Hallucination,
    Conflict,
    Warning,
    Searching,
    SlowDigestion,
    Aggravation,
    Clairvoyance,
}

/// Number of properties.
pub const NPROPS: usize = 36;

/// Position of a property in a property table.
pub open spec fn prop_index(p: Property) -> int {
    match p {
        Property::FireResistance => 0,
        Property::ColdResistance => 1,
        Property::SleepResistance => 2,
        Property::DisintegrationResistance => 3,
        Property::ShockResistance => 4,
        Property::PoisonResistance => 5,
        Property::AcidResistance => 6,
        Property::StoneResistance => 7,
        Property::DrainResistance => 8,
        Property::MagicResistance => 9,
        Property::Reflection => 10,
        Property::SeeInvisible => 11,
        Property::Invisibility => 12,
        Property::Telepathy => 13,
        Property::Infravision => 14,
        Property::Xray => 15,
        Property::Speed => 16,
        Property::Levitation => 17,
        Property::Flying => 18,
        Property::Stealth => 19,
        Property::Regeneration => 20,
        Property::EnergyRegeneration => 21,
        Property::Protection => 22,
        Property::FreeAction => 23,
        Property::Teleportation => 24,
        Property::TeleportControl => 25,
        Property::PolymorphControl => 26,
        Property::Unchanging => 27,
        Property::Fumbling => 28,
        Property::Hallucination => 29,
        Property::Conflict => 30,
        Property::Warning => 31,
        Property::Searching => 32,
        Property::SlowDigestion => 33,
        Property::Aggravation => 34,
        Property::Clairvoyance => 35,
    }
}

/// Position of a property in a property table.
fn index_of(p: Property) -> (i: usize)
    ensures
        i == prop_index(p),
        i < NPROPS,
{
    match p {
        Property::FireResistance => 0,
        Property::ColdResistance => 1,
        Property::SleepResistance => 2,
        Property::DisintegrationResistance => 3,
        Property::ShockResistance => 4,
        Property::PoisonResistance => 5,
        Property::AcidResistance => 6,
        Property::StoneResistance => 7,
        Property::DrainResistance => 8,
        Property::MagicResistance => 9,
        Property::Reflection => 10,
        Property::SeeInvisible => 11,
        Property::Invisibility => 12,
        Property::Telepathy => 13,
        Property::Infravision => 14,
        Property::Xray => 15,
        Property::Speed => 16,
        Property::Levitation => 17,
        Property::Flying => 18,
        Property::Stealth => 19,
        Property::Regeneration => 20,
        Property::EnergyRegeneration => 21,
        Property::Protection => 22,
        Property::FreeAction => 23,
        Property::Teleportation => 24,
        Property::TeleportControl => 25,
        Property::PolymorphControl => 26,
        Property::Unchanging => 27,
        Property::Fumbling => 28,
        Property::Hallucination => 29,
        Property::Conflict => 30,
        Property::Warning => 31,
        Property::Searching => 32,
        Property::SlowDigestion => 33,
        Property::Aggravation => 34,
        Property::Clairvoyance => 35,
    }
}

/// The properties the hero has: intrinsic ones, and ones lasting for a
/// number of turns.
#[derive(Debug, Clone)]
pub struct PropertySet {
    /// Whether each property is intrinsic, by `prop_index`.
    pub intrinsic: Vec<bool>,
    /// Turns each timed property lasts, by `prop_index`.
    pub timeout: Vec<u32>,
}

impl PropertySet {
    /// One entry per property in each table.
    pub open spec fn wf(&self) -> bool {
        self.intrinsic@.len() == NPROPS && self.timeout@.len() == NPROPS
    }

    /// Whether `p` is intrinsic.
    pub open spec fn is_intrinsic(&self, p: Property) -> bool {
        self.intrinsic@[prop_index(p)]
    }

    /// Turns `p` still lasts.
    pub open spec fn turns(&self, p: Property) -> u32 {
        self.timeout@[prop_index(p)]
    }

    /// Whether the hero has `p`, intrinsically or for a while.
    pub open spec fn holds(&self, p: Property) -> bool {
        self.is_intrinsic(p) || self.turns(p) > 0
    }

    /// No properties at all.
    pub fn new() -> (s: PropertySet)
        ensures
            s.wf(),
            forall|p: Property| !s.is_intrinsic(p) && s.turns(p) == 0,
    {
        let mut intrinsic: Vec<bool> = Vec::new();
        let mut timeout: Vec<u32> = Vec::new();
        let mut i: usize = 0;
        while i < NPROPS
            invariant
                i <= NPROPS,
                intrinsic@.len() == i,
                timeout@.len() == i,
                forall|j: int| 0 <= j < i ==> !intrinsic@[j] && timeout@[j] == 0,
            decreases NPROPS - i,
        {
            intrinsic.push(false);
            timeout.push(0);
            i = i + 1;
        }
        PropertySet { intrinsic, timeout }
    }

    /// Whether the hero has a property.
    pub fn has(&self, p: Property) -> (r: bool)
        requires
            self.wf(),
        ensures
            r == self.holds(p),
    {
        let i = index_of(p);
        self.intrinsic[i] || self.timeout[i] > 0
    }

    /// Whether a property is intrinsic.
    pub fn has_intrinsic(&self, p: Property) -> (r: bool)
        requires
            self.wf(),
        ensures
            r == self.is_intrinsic(p),
    {
        self.intrinsic[index_of(p)]
    }

    /// Make a property intrinsic.
    pub fn grant_intrinsic(&mut self, p: Property)
        requires
            old(self).wf(),
        ensures
            final(self).wf(),
            final(self).intrinsic@ == old(self).intrinsic@.update(prop_index(p), true),
            final(self).timeout@ == old(self).timeout@,
    {
        let i = index_of(p);
        self.intrinsic.set(i, true);
    }

    /// Take an intrinsic property away.
    pub fn revoke_intrinsic(&mut self, p: Property)
        requires
            old(self).wf(),
        ensures
            final(self).wf(),
            final(self).intrinsic@ == old(self).intrinsic@.update(prop_index(p), false),
            final(self).timeout@ == old(self).timeout@,
    {
        let i = index_of(p);
        self.intrinsic.set(i, false);
    }

    /// Take an intrinsic property away (same as `revoke_intrinsic`).
    pub fn remove_intrinsic(&mut self, p: Property)
        requires
            old(self).wf(),
        ensures
            final(self).wf(),
            final(self).intrinsic@ == old(self).intrinsic@.update(prop_index(p), false),
            final(self).timeout@ == old(self).timeout@,
    {
        self.revoke_intrinsic(p);
    }

    /// Make a property last for `turns` turns from now.
    pub fn set_timeout(&mut self, p: Property, turns: u32)
        requires
            old(self).wf(),
        ensures
            final(self).wf(),
            final(self).intrinsic@ == old(self).intrinsic@,
            final(self).timeout@ == old(self).timeout@.update(prop_index(p), turns),
    {
        let i = index_of(p);
        self.timeout.set(i, turns);
    }
}

/// A map position.
#[derive(Debug, Clone, Copy, PartialEq, Eq, Structural)]
pub struct Position {
    pub x: i8,
    pub y: i8,
}

/// The hero.
#[derive(Debug, Clone)]
pub struct You {
    pub hp: i32,
    pub hp_max: i32,
    pub energy: i32,
    pub energy_max: i32,
    pub attr_current: Attributes,
    pub attr_max: Attributes,
    pub properties: PropertySet,
    pub blinded_timeout: u16,
    pub confused_timeout: u16,
    pub stunned_timeout: u16,
    pub hallucinating_timeout: u16,
    pub paralyzed_timeout: u16,
    pub sleeping_timeout: u16,
    pub polymorph_timeout: u32,
    pub luck: i8,
    pub pos: Position,
    pub exp_level: i32,
    pub armor_class: i8,
    /// Alignment record: negative chaotic, zero neutral, positive lawful.
    pub alignment: i32,
    pub nutrition: i32,
    pub movement_points: i16,
    pub role: i32,
    pub race: i32,
    /// Identities of the equipped items.
    pub equipped_items: Vec<u32>,
    pub cursed_item_tracker: CursedItemTracker,
    /// Which items grant which properties.
    pub property_binding: PropertyBinding,
}

impl You {
    /// The property tables are complete.
    pub open spec fn wf(&self) -> bool {
        self.properties.wf()
    }
}

impl Default for You {
    /// A fresh first-level hero: 10 hit points, 1 point of energy, every
    /// attribute at 0, no properties, no timeouts, at `(0, 0)`, armor class 10.
    fn default() -> (u: You)
        ensures
            u.wf(),
            u.hp == 10 && u.hp_max == 10 && u.energy == 1 && u.energy_max == 1,
            forall|a: Attribute| u.attr_current.value(a) == 0 && u.attr_max.value(a) == 0,
            forall|p: Property| !u.properties.is_intrinsic(p) && u.properties.turns(p) == 0,
            u.blinded_timeout == 0 && u.confused_timeout == 0 && u.stunned_timeout == 0,
            u.hallucinating_timeout == 0 && u.paralyzed_timeout == 0 && u.sleeping_timeout == 0,
            u.polymorph_timeout == 0,
            u.luck == 0 && u.exp_level == 1 && u.armor_class == 10 && u.alignment == 0,
            u.pos == (Position { x: 0, y: 0 }),
            u.nutrition == 900 && u.movement_points == 12,
            u.equipped_items@.len() == 0,
            u.cursed_item_tracker.active_curses@.len() == 0,
            table_contents(u.property_binding.item_properties) == no_bindings(),
    {
        You {
            hp: 10,
            hp_max: 10,
            energy: 1,
            energy_max: 1,
            attr_current: Attributes::uniform(0),
            attr_max: Attributes::uniform(0),
            properties: PropertySet::new(),
            blinded_timeout: 0,
            confused_timeout: 0,
            stunned_timeout: 0,
            hallucinating_timeout: 0,
            paralyzed_timeout: 0,
            sleeping_timeout: 0,
            polymorph_timeout: 0,
            luck: 0,
            pos: Position { x: 0, y: 0 },
            exp_level: 1,
            armor_class: 10,
            alignment: 0,
            nutrition: 900,
            movement_points: 12,
            role: 0,
            race: 0,
            equipped_items: Vec::new(),
            cursed_item_tracker: CursedItemTracker::new(),
            property_binding: PropertyBinding::new(),
        }
    }
}

} // verus!
