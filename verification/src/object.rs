//! Objects lying on a level, as far as the level rules read them.

use vstd::prelude::*;
use vstd::string::*;

verus! {

/// Object classes.
#[derive(Debug, Clone, Copy, PartialEq, Eq, Structural)]
pub enum ObjectClass {
    Random,
    Weapon,
    Armor,
    Ring,
    Amulet,
    Tool,
    Food,
    Potion,
    Scroll,
    Spellbook,
    Wand,
    Coin,
    Gem,
    Rock,
    Ball,
    Chain,
    Venom,
}

/// Blessed, uncursed or cursed.
#[derive(Debug, Clone, Copy, PartialEq, Eq, Structural)]
pub enum BucStatus {
    Blessed,
    Uncursed,
    Cursed,
}

/// Identity of an object instance.
#[derive(Debug, Clone, Copy, PartialEq, Eq, Hash, Structural)]
pub struct ObjectId(pub u32);

/// The noun an object of a class is called by.
pub open spec fn class_noun(c: ObjectClass) -> Seq<char> {
    match c {
        ObjectClass::Random => "item"@,
        ObjectClass::Weapon => "weapon"@,
        ObjectClass::Armor => "armor"@,
        ObjectClass::Ring => "ring"@,
        ObjectClass::Amulet => "amulet"@,
        ObjectClass::Tool => "tool"@,
        ObjectClass::Food => "food"@,
        ObjectClass::Potion => "potion"@,
        ObjectClass::Scroll => "scroll"@,
        ObjectClass::Spellbook => "spellbook"@,
        ObjectClass::Wand => "wand"@,
        ObjectClass::Coin => "gold"@,
        ObjectClass::Gem => "gem"@,
        ObjectClass::Rock => "rock"@,
        ObjectClass::Ball => "iron ball"@,
        ObjectClass::Chain => "iron chain"@,
        ObjectClass::Venom => "venom"@,
    }
}

/// An object instance.
#[derive(Debug, Clone, Copy)]
pub struct Object {
    pub id: ObjectId,
    pub object_type: i16,
    pub class: ObjectClass,
    pub quantity: i32,
    pub x: i8,
    pub y: i8,
    pub buc: BucStatus,
    pub enchantment: i8,
    pub recharged: u8,
    pub trapped: bool,
    pub container: bool,
    pub artifact: u8,
    pub lit: bool,
    pub age: i64,
}

impl Object {
    /// A fresh uncursed object of one piece, not placed anywhere.
    pub fn new(id: ObjectId, object_type: i16, class: ObjectClass) -> (o: Object)
        ensures
            o.id == id,
            o.object_type == object_type,
            o.class == class,
            o.quantity == 1,
            o.x == 0 && o.y == 0,
            o.buc == BucStatus::Uncursed,
            o.enchantment == 0,
            o.recharged == 0,
            !o.trapped,
            !o.container,
            o.artifact == 0,
            !o.lit,
            o.age == 0,
    {
        Object {
            id,
            object_type,
            class,
            quantity: 1,
            x: 0,
            y: 0,
            buc: BucStatus::Uncursed,
            enchantment: 0,
            recharged: 0,
            trapped: false,
            container: false,
            artifact: 0,
            lit: false,
            age: 0,
        }
    }

    /// Whether the object is cursed.
    pub fn is_cursed(&self) -> (r: bool)
        ensures
            r == (self.buc == BucStatus::Cursed),
    {
        matches!(self.buc, BucStatus::Cursed)
    }

    /// Whether the object is blessed.
    pub fn is_blessed(&self) -> (r: bool)
        ensures
            r == (self.buc == BucStatus::Blessed),
    {
        matches!(self.buc, BucStatus::Blessed)
    }

    /// Whether the object is a container (box, chest, bag).
    pub fn is_container(&self) -> (r: bool)
        ensures
            r == self.container,
    {
        self.container
    }

    /// Whether the object is an artifact.
    pub fn is_artifact(&self) -> (r: bool)
        ensures
            r == (self.artifact != 0),
    {
        self.artifact != 0
    }

    /// Whether the object is burning.
    pub fn is_lit(&self) -> (r: bool)
        ensures
            r == self.lit,
    {
        self.lit
    }

    /// The name the object is shown by: the `the` and its class noun.
    pub fn display_name(&self) -> (s: String)
        ensures
            s@ == "the "@ + class_noun(self.class),
    {
        let noun: &str = match self.class {
            ObjectClass::Random => "item",
            ObjectClass::Weapon => "weapon",
            ObjectClass::Armor => "armor",
            ObjectClass::Ring => "ring",
            ObjectClass::Amulet => "amulet",
            ObjectClass::Tool => "tool",
            ObjectClass::Food => "food",
            ObjectClass::Potion => "potion",
            ObjectClass::Scroll => "scroll",
            ObjectClass::Spellbook => "spellbook",
            ObjectClass::Wand => "wand",
            ObjectClass::Coin => "gold",
            ObjectClass::Gem => "gem",
            ObjectClass::Rock => "rock",
            ObjectClass::Ball => "iron ball",
            ObjectClass::Chain => "iron chain",
            ObjectClass::Venom => "venom",
        };
        let mut s = String::from_str("the ");
        s.append(noun);
        s
    }
}

impl Default for Object {
    /// An uncursed object of no particular class.
    fn default() -> (o: Object)
        ensures
            o.id == ObjectId(0),
            o.object_type == 0,
            o.class == ObjectClass::Random,
            o.quantity == 1,
            o.buc == BucStatus::Uncursed,
            o.enchantment == 0,
            o.recharged == 0,
            !o.trapped && !o.container && !o.lit,
            o.artifact == 0,
    {
        Object::new(ObjectId(0), 0, ObjectClass::Random)
    }
}

} // verus!
