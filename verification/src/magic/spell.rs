//! Schools of spells, the spells, and how well a caster knows one.

use vstd::prelude::*;

verus! {

/// The schools spells belong to.
#[derive(Debug, Clone, Copy, PartialEq, Eq, Hash, Structural)]
pub enum SpellSchool {
    Attack,
    Healing,
    Divination,
    Enchantment,
    Clerical,
    Escape,
    Matter,
}

/// Every school, in order.
pub open spec fn all_schools() -> Seq<SpellSchool> {
    seq![
        SpellSchool::Attack,
        SpellSchool::Healing,
        SpellSchool::Divination,
        SpellSchool::Enchantment,
        SpellSchool::Clerical,
        SpellSchool::Escape,
        SpellSchool::Matter,
    ]
}

impl SpellSchool {
    /// Every school, in order.
    pub fn all() -> (v: Vec<SpellSchool>)
        ensures
            v@ == all_schools(),
    {
        let v = vec![
            SpellSchool::Attack,
            SpellSchool::Healing,
            SpellSchool::Divination,
            SpellSchool::Enchantment,
            SpellSchool::Clerical,
            SpellSchool::Escape,
            SpellSchool::Matter,
        ];
        assert(v@ =~= all_schools());
        v
    }
}

/// The spells a caster can learn.
#[derive(Debug, Clone, Copy, PartialEq, Eq, Hash, Structural)]
pub enum SpellType {
    Dig,
    MagicMissile,
    Fireball,
    ConeOfCold,
    Sleep,
    FingerOfDeath,
    Light,
    DetectMonsters,
    Healing,
    Knock,
    ForceBolt,
    ConfuseMonster,
    CureBlindness,
    DrainLife,
    SlowMonster,
    WizardLock,
    CreateMonster,
    DetectFood,
    CauseFear,
    Clairvoyance,
    CureSickness,
    CharmMonster,
    HasteSelf,
    DetectUnseen,
    Levitation,
    ExtraHealing,
    RestoreAbility,
    Invisibility,
    DetectTreasure,
    RemoveCurse,
    MagicMapping,
    Identify,
    TurnUndead,
    Polymorph,
    TeleportAway,
    CreateFamiliar,
    Cancellation,
    Protection,
    Jumping,
    StoneToFlesh,
    ChainLightning,
}

/// How well a caster knows a spell.
#[derive(Debug, Clone, Copy, PartialEq, Eq, Hash, Structural)]
pub enum SpellMastery {
    Unknown,
    Novice,
    Adept,
    Expert,
    Master,
}

/// The rank of a mastery, from 0 for unknown to 4 for master.
pub open spec fn mastery_rank(m: SpellMastery) -> int {
    match m {
        SpellMastery::Unknown => 0,
        SpellMastery::Novice => 1,
        SpellMastery::Adept => 2,
        SpellMastery::Expert => 3,
        SpellMastery::Master => 4,
    }
}

/// The name of a mastery.
pub open spec fn mastery_name(m: SpellMastery) -> Seq<char> {
    match m {
        SpellMastery::Unknown => "Unknown"@,
        SpellMastery::Novice => "Novice"@,
        SpellMastery::Adept => "Adept"@,
        SpellMastery::Expert => "Expert"@,
        SpellMastery::Master => "Master"@,
    }
}

impl SpellMastery {
    /// The mastery's name.
    pub fn name(&self) -> (s: &'static str)
        ensures
            s@ == mastery_name(*self),
    {
        match self {
            SpellMastery::Unknown => "Unknown",
            SpellMastery::Novice => "Novice",
            SpellMastery::Adept => "Adept",
            SpellMastery::Expert => "Expert",
            SpellMastery::Master => "Master",
        }
    }

    /// The mastery's rank.
    pub fn rank(&self) -> (r: u8)
        ensures
            r == mastery_rank(*self),
    {
        match self {
            SpellMastery::Unknown => 0,
            SpellMastery::Novice => 1,
            SpellMastery::Adept => 2,
            SpellMastery::Expert => 3,
            SpellMastery::Master => 4,
        }
    }
}

} // verus!
