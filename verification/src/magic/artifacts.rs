//! Artifact effects: the properties, attacks and abilities of the named
//! artifacts, what wearing them grants the hero, their warnings, the record
//! of which artifacts exist and are known, and Magicbane's special hit.

use vstd::prelude::*;
use vstd::string::*;
use crate::player::{Property, You, prop_index};
use crate::rng::{GameRng, dice_at, rn2_at, step, steps};
use crate::text::str_eq;

verus! {

/// A property or effect an artifact grants.
#[derive(Debug, Clone, Copy, PartialEq, Eq, Hash, Structural)]
pub enum ArtifactProperty {
    GrantsAttack,
    GrantsDefense,
    FireResistance,
    ColdResistance,
    PoisonResistance,
    DrainResistance,
    SleepResistance,
    SeeInvisible,
    Telepathy,
    Infravision,
    Xray,
    Speed,
    Levitation,
    FreeAction,
    Regeneration,
    Reflection,
    MagicResistance,
    Stealth,
    LuckBonus,
}

/// The hero property an artifact property grants, if it is one.
pub open spec fn player_property_of(p: ArtifactProperty) -> Option<Property> {
    match p {
        ArtifactProperty::FireResistance => Some(Property::FireResistance),
        ArtifactProperty::ColdResistance => Some(Property::ColdResistance),
        ArtifactProperty::PoisonResistance => Some(Property::PoisonResistance),
        ArtifactProperty::DrainResistance => Some(Property::DrainResistance),
        ArtifactProperty::SleepResistance => Some(Property::SleepResistance),
        ArtifactProperty::SeeInvisible => Some(Property::SeeInvisible),
        ArtifactProperty::Telepathy => Some(Property::Telepathy),
        ArtifactProperty::Infravision => Some(Property::Infravision),
        ArtifactProperty::Xray => Some(Property::Xray),
        ArtifactProperty::Speed => Some(Property::Speed),
        ArtifactProperty::Levitation => Some(Property::Levitation),
        ArtifactProperty::FreeAction => Some(Property::FreeAction),
        ArtifactProperty::Regeneration => Some(Property::Regeneration),
        ArtifactProperty::Reflection => Some(Property::Reflection),
        ArtifactProperty::MagicResistance => Some(Property::MagicResistance),
        ArtifactProperty::Stealth => Some(Property::Stealth),
        _ => None,
    }
}

/// Description of an artifact property.
pub open spec fn artifact_property_description(p: ArtifactProperty) -> Seq<char> {
    match p {
        ArtifactProperty::GrantsAttack => "grants special attacks"@,
        ArtifactProperty::GrantsDefense => "grants special defense"@,
        ArtifactProperty::FireResistance => "grants fire resistance"@,
        ArtifactProperty::ColdResistance => "grants cold resistance"@,
        ArtifactProperty::PoisonResistance => "grants poison resistance"@,
        ArtifactProperty::DrainResistance => "resists life drain"@,
        ArtifactProperty::SleepResistance => "resists sleep"@,
        ArtifactProperty::SeeInvisible => "grants see invisible"@,
        ArtifactProperty::Telepathy => "grants telepathy"@,
        ArtifactProperty::Infravision => "grants infravision"@,
        ArtifactProperty::Xray => "grants x-ray vision"@,
        ArtifactProperty::Speed => "grants speed"@,
        ArtifactProperty::Levitation => "grants levitation"@,
        ArtifactProperty::FreeAction => "grants free action"@,
        ArtifactProperty::Regeneration => "grants regeneration"@,
        ArtifactProperty::Reflection => "grants reflection"@,
        ArtifactProperty::MagicResistance => "grants magic resistance"@,
        ArtifactProperty::Stealth => "grants stealth"@,
        ArtifactProperty::LuckBonus => "grants luck bonus"@,
    }
}

impl ArtifactProperty {
    /// The hero property this grants, if any.
    pub fn to_player_property(&self) -> (r: Option<Property>)
        ensures
            r == player_property_of(*self),
    {
        match self {
            ArtifactProperty::FireResistance => Some(Property::FireResistance),
            ArtifactProperty::ColdResistance => Some(Property::ColdResistance),
            ArtifactProperty::PoisonResistance => Some(Property::PoisonResistance),
            ArtifactProperty::DrainResistance => Some(Property::DrainResistance),
            ArtifactProperty::SleepResistance => Some(Property::SleepResistance),
            ArtifactProperty::SeeInvisible => Some(Property::SeeInvisible),
            ArtifactProperty::Telepathy => Some(Property::Telepathy),
            ArtifactProperty::Infravision => Some(Property::Infravision),
            ArtifactProperty::Xray => Some(Property::Xray),
            ArtifactProperty::Speed => Some(Property::Speed),
            ArtifactProperty::Levitation => Some(Property::Levitation),
            ArtifactProperty::FreeAction => Some(Property::FreeAction),
            ArtifactProperty::Regeneration => Some(Property::Regeneration),
            ArtifactProperty::Reflection => Some(Property::Reflection),
            ArtifactProperty::MagicResistance => Some(Property::MagicResistance),
            ArtifactProperty::Stealth => Some(Property::Stealth),
            _ => None,
        }
    }

    /// Description of the property.
    pub fn description(&self) -> (s: &'static str)
        ensures
            s@ == artifact_property_description(*self),
    {
        match self {
            ArtifactProperty::GrantsAttack => "grants special attacks",
            ArtifactProperty::GrantsDefense => "grants special defense",
            ArtifactProperty::FireResistance => "grants fire resistance",
            ArtifactProperty::ColdResistance => "grants cold resistance",
            ArtifactProperty::PoisonResistance => "grants poison resistance",
            ArtifactProperty::DrainResistance => "resists life drain",
            ArtifactProperty::SleepResistance => "resists sleep",
            ArtifactProperty::SeeInvisible => "grants see invisible",
            ArtifactProperty::Telepathy => "grants telepathy",
            ArtifactProperty::Infravision => "grants infravision",
            ArtifactProperty::Xray => "grants x-ray vision",
            ArtifactProperty::Speed => "grants speed",
            ArtifactProperty::Levitation => "grants levitation",
            ArtifactProperty::FreeAction => "grants free action",
            ArtifactProperty::Regeneration => "grants regeneration",
            ArtifactProperty::Reflection => "grants reflection",
            ArtifactProperty::MagicResistance => "grants magic resistance",
            ArtifactProperty::Stealth => "grants stealth",
            ArtifactProperty::LuckBonus => "grants luck bonus",
        }
    }
}

/// The special attack of an artifact weapon.
#[derive(Debug, Clone, Copy, PartialEq, Eq, Hash, Structural)]
pub enum ArtifactAttackType {
    NoAttack,
    Physical,
    DrainLife,
    Cold,
    Fire,
    Electric,
    Disintegration,
    Stun,
}

/// The verb of an artifact attack.
pub open spec fn attack_verb(a: ArtifactAttackType) -> Seq<char> {
    match a {
        ArtifactAttackType::NoAttack => "hits"@,
        ArtifactAttackType::Physical => "strikes"@,
        ArtifactAttackType::DrainLife => "drains life from"@,
        ArtifactAttackType::Cold => "freezes"@,
        ArtifactAttackType::Fire => "burns"@,
        ArtifactAttackType::Electric => "shocks"@,
        ArtifactAttackType::Disintegration => "disintegrates"@,
        ArtifactAttackType::Stun => "stuns"@,
    }
}

impl ArtifactAttackType {
    /// The verb the attack is described with.
    pub fn damage_message(&self) -> (s: &'static str)
        ensures
            s@ == attack_verb(*self),
    {
        match self {
            ArtifactAttackType::NoAttack => "hits",
            ArtifactAttackType::Physical => "strikes",
            ArtifactAttackType::DrainLife => "drains life from",
            ArtifactAttackType::Cold => "freezes",
            ArtifactAttackType::Fire => "burns",
            ArtifactAttackType::Electric => "shocks",
            ArtifactAttackType::Disintegration => "disintegrates",
            ArtifactAttackType::Stun => "stuns",
        }
    }
}

/// A special artifact ability.
#[derive(Debug, Clone, Copy, PartialEq, Eq, Hash, Structural)]
pub enum ArtifactAbility {
    NoAbility,
    WarnsOfMonsters,
    DetectsMonsters,
    EmitsLight,
    CallsForHelp,
    CursesWearer,
}

/// Description of an artifact ability.
pub open spec fn ability_description(a: ArtifactAbility) -> Seq<char> {
    match a {
        ArtifactAbility::NoAbility => "no special ability"@,
        ArtifactAbility::WarnsOfMonsters => "warns of specific monsters"@,
        ArtifactAbility::DetectsMonsters => "detects nearby monsters"@,
        ArtifactAbility::EmitsLight => "emits light"@,
        ArtifactAbility::CallsForHelp => "can summon allies"@,
        ArtifactAbility::CursesWearer => "curses its wearer"@,
    }
}

impl ArtifactAbility {
    /// Description of the ability.
    pub fn description(&self) -> (s: &'static str)
        ensures
            s@ == ability_description(*self),
    {
        match self {
            ArtifactAbility::NoAbility => "no special ability",
            ArtifactAbility::WarnsOfMonsters => "warns of specific monsters",
            ArtifactAbility::DetectsMonsters => "detects nearby monsters",
            ArtifactAbility::EmitsLight => "emits light",
            ArtifactAbility::CallsForHelp => "can summon allies",
            ArtifactAbility::CursesWearer => "curses its wearer",
        }
    }
}

/// The effects of an artifact.
#[derive(Debug, Clone)]
pub struct ArtifactEffects {
    /// Properties granted when worn or wielded.
    pub properties: Vec<ArtifactProperty>,
    pub attack: ArtifactAttackType,
    pub ability: ArtifactAbility,
    pub luck_bonus: i32,
    pub ac_bonus: i32,
    pub damage_bonus: i32,
}

impl Default for ArtifactEffects {
    /// No properties, no attack, no ability, no bonuses.
    fn default() -> (e: Self)
        ensures
            e.properties@.len() == 0,
            e.attack == ArtifactAttackType::NoAttack,
            e.ability == ArtifactAbility::NoAbility,
            e.luck_bonus == 0 && e.ac_bonus == 0 && e.damage_bonus == 0,
    {
        ArtifactEffects {
            properties: Vec::new(),
            attack: ArtifactAttackType::NoAttack,
            ability: ArtifactAbility::NoAbility,
            luck_bonus: 0,
            ac_bonus: 0,
            damage_bonus: 0,
        }
    }
}

/// The table of artifact effects, by artifact id: the properties, attack,
/// ability and damage bonus of Excalibur (1), Stormbringer (2), Mjollnir (3),
/// Sting (4), Orcrist (5), Grimtooth (6) and Cleaver (7); no effects for any
/// other id. No listed artifact has a luck or armor class bonus.
pub open spec fn effects_table(id: u8) -> (Seq<ArtifactProperty>, ArtifactAttackType, ArtifactAbility, i32) {
    if id == 1 {
        (seq![ArtifactProperty::FireResistance, ArtifactProperty::GrantsDefense], ArtifactAttackType::DrainLife,
            ArtifactAbility::WarnsOfMonsters, 5)
    } else if id == 2 {
        (seq![ArtifactProperty::ColdResistance, ArtifactProperty::SeeInvisible], ArtifactAttackType::Electric,
            ArtifactAbility::WarnsOfMonsters, 5)
    } else if id == 3 {
        (seq![ArtifactProperty::GrantsAttack], ArtifactAttackType::Physical, ArtifactAbility::NoAbility, 4)
    } else if id == 4 {
        (seq![ArtifactProperty::SeeInvisible, ArtifactProperty::Stealth], ArtifactAttackType::Physical,
            ArtifactAbility::WarnsOfMonsters, 3)
    } else if id == 5 {
        (seq![ArtifactProperty::Infravision, ArtifactProperty::Speed], ArtifactAttackType::Physical,
            ArtifactAbility::WarnsOfMonsters, 3)
    } else if id == 6 {
        (seq![ArtifactProperty::PoisonResistance], ArtifactAttackType::Physical, ArtifactAbility::WarnsOfMonsters, 2)
    } else if id == 7 {
        (seq![ArtifactProperty::FireResistance], ArtifactAttackType::Fire, ArtifactAbility::EmitsLight, 5)
    } else {
        (seq![], ArtifactAttackType::NoAttack, ArtifactAbility::NoAbility, 0)
    }
}

/// `e` holds the effects the table gives artifact `id`.
pub open spec fn effects_of(e: ArtifactEffects, id: u8) -> bool {
    let t = effects_table(id);
    &&& e.properties@ == t.0
    &&& e.attack == t.1
    &&& e.ability == t.2
    &&& e.damage_bonus == t.3
    &&& e.luck_bonus == 0
    &&& e.ac_bonus == 0
}

fn effects_with(props: Vec<ArtifactProperty>, attack: ArtifactAttackType, ability: ArtifactAbility,
    damage_bonus: i32) -> (e: ArtifactEffects)
    ensures
        e.properties@ == props@,
        e.attack == attack,
        e.ability == ability,
        e.damage_bonus == damage_bonus,
        e.luck_bonus == 0 && e.ac_bonus == 0,
{
    ArtifactEffects { properties: props, attack, ability, luck_bonus: 0, ac_bonus: 0, damage_bonus }
}

/// Get the effects of an artifact by its id.
pub fn get_artifact_effects(artifact_id: u8) -> (e: ArtifactEffects)
    ensures
        effects_of(e, artifact_id),
{
    match artifact_id {
        1 => {
            let v = vec![ArtifactProperty::FireResistance, ArtifactProperty::GrantsDefense];
            assert(v@ =~= effects_table(1).0);
            effects_with(v, ArtifactAttackType::DrainLife, ArtifactAbility::WarnsOfMonsters, 5)
        },
        2 => {
            let v = vec![ArtifactProperty::ColdResistance, ArtifactProperty::SeeInvisible];
            assert(v@ =~= effects_table(2).0);
            effects_with(v, ArtifactAttackType::Electric, ArtifactAbility::WarnsOfMonsters, 5)
        },
        3 => {
            let v = vec![ArtifactProperty::GrantsAttack];
            assert(v@ =~= effects_table(3).0);
            effects_with(v, ArtifactAttackType::Physical, ArtifactAbility::NoAbility, 4)
        },
        4 => {
            let v = vec![ArtifactProperty::SeeInvisible, ArtifactProperty::Stealth];
            assert(v@ =~= effects_table(4).0);
            effects_with(v, ArtifactAttackType::Physical, ArtifactAbility::WarnsOfMonsters, 3)
        },
        5 => {
            let v = vec![ArtifactProperty::Infravision, ArtifactProperty::Speed];
            assert(v@ =~= effects_table(5).0);
            effects_with(v, ArtifactAttackType::Physical, ArtifactAbility::WarnsOfMonsters, 3)
        },
        6 => {
            let v = vec![ArtifactProperty::PoisonResistance];
            assert(v@ =~= effects_table(6).0);
            effects_with(v, ArtifactAttackType::Physical, ArtifactAbility::WarnsOfMonsters, 2)
        },
        7 => {
            let v = vec![ArtifactProperty::FireResistance];
            assert(v@ =~= effects_table(7).0);
            effects_with(v, ArtifactAttackType::Fire, ArtifactAbility::EmitsLight, 5)
        },
        _ => {
            let e = ArtifactEffects::default();
            assert(e.properties@ =~= effects_table(artifact_id).0);
            e
        },
    }
}

/// Whether some property in `props` grants hero property `p`.
pub open spec fn grants(props: Seq<ArtifactProperty>, p: Property) -> bool {
    exists|i: int| 0 <= i < props.len() && player_property_of(props[i]) == Some(p)
}

/// `v` clamped to the luck range `-13..=13`.
pub open spec fn clamp_luck(v: int) -> int {
    if v < -13 { -13 } else if v > 13 { 13 } else { v }
}

/// The hero after putting on an artifact with effects `e`: every property
/// it grants becomes intrinsic, and a luck bonus is added (within -13..=13).
pub open spec fn artifact_applied(old: You, new: You, e: ArtifactEffects, on: bool) -> bool {
    &&& new.properties.wf()
    &&& new == (You { properties: new.properties, luck: new.luck, ..old })
    &&& new.properties.timeout@ == old.properties.timeout@
    &&& forall|p: Property| #[trigger] new.properties.is_intrinsic(p) == if grants(e.properties@, p) {
        on
    } else {
        old.properties.is_intrinsic(p)
    }
    &&& new.luck == if e.luck_bonus == 0 { old.luck as int } else if on {
        clamp_luck(old.luck + e.luck_bonus)
    } else {
        clamp_luck(old.luck - e.luck_bonus)
    }
}

/// Set the intrinsic of every hero property the artifact grants to `on`.
fn set_granted(player: &mut You, effects: &ArtifactEffects, on: bool)
    requires
        old(player).wf(),
    ensures
        final(player).properties.wf(),
        *final(player) == (You { properties: final(player).properties, ..*old(player) }),
        final(player).properties.timeout@ == old(player).properties.timeout@,
        forall|p: Property| #[trigger] final(player).properties.is_intrinsic(p) == if grants(effects.properties@, p) {
            on
        } else {
            old(player).properties.is_intrinsic(p)
        },
{
    let mut i: usize = 0;
    while i < effects.properties.len()
        invariant
            i <= effects.properties@.len(),
            player.properties.wf(),
            *player == (You { properties: player.properties, ..*old(player) }),
            player.properties.timeout@ == old(player).properties.timeout@,
            forall|p: Property| #[trigger] player.properties.is_intrinsic(p) == if grants(
                effects.properties@.take(i as int), p) {
                on
            } else {
                old(player).properties.is_intrinsic(p)
            },
        decreases effects.properties@.len() - i,
    {
        let ghost before = player.properties;
        let prop = effects.properties[i];
        if let Some(player_prop) = prop.to_player_property() {
            if on {
                player.properties.grant_intrinsic(player_prop);
            } else {
                player.properties.revoke_intrinsic(player_prop);
            }
        }
        proof {
            let t = effects.properties@.take(i + 1);
            assert forall|p: Property| #[trigger] player.properties.is_intrinsic(p) == if grants(t, p) {
                on
            } else {
                old(player).properties.is_intrinsic(p)
            } by {
                if grants(t, p) && !grants(effects.properties@.take(i as int), p) {
                    let k = choose|k: int| 0 <= k < t.len() && player_property_of(t[k]) == Some(p);
                    if k < i {
                        assert(effects.properties@.take(i as int)[k] == t[k]);
                    }
                }
                if grants(effects.properties@.take(i as int), p) {
                    let k = choose|k: int| 0 <= k < i && player_property_of(effects.properties@.take(i as int)[k])
                        == Some(p);
                    assert(t[k] == effects.properties@.take(i as int)[k]);
                }
                if player_property_of(prop) == Some(p) {
                    assert(t[i as int] == prop);
                }
                if prop_index(p) != prop_index(player_property_of(prop).unwrap_or(p)) || player_property_of(prop) is None {
                    assert(player.properties.is_intrinsic(p) == before.is_intrinsic(p));
                }
            }
        }
        i = i + 1;
    }
    proof {
        assert(effects.properties@.take(effects.properties@.len() as int) =~= effects.properties@);
    }
}

/// Apply an artifact's effects to the hero when it is put on.
pub fn apply_artifact_effects(player: &mut You, effects: &ArtifactEffects)
    requires
        old(player).wf(),
        i32::MIN <= old(player).luck + effects.luck_bonus <= i32::MAX,
    ensures
        artifact_applied(*old(player), *final(player), *effects, true),
{
    set_granted(player, effects, true);
    if effects.luck_bonus != 0 {
        let v = player.luck as i32 + effects.luck_bonus;
        player.luck = (if v < -13 { -13 } else if v > 13 { 13 } else { v }) as i8;
    }
}

/// Remove an artifact's effects from the hero when it is taken off.
pub fn remove_artifact_effects(player: &mut You, effects: &ArtifactEffects)
    requires
        old(player).wf(),
        i32::MIN <= old(player).luck - effects.luck_bonus <= i32::MAX,
    ensures
        artifact_applied(*old(player), *final(player), *effects, false),
{
    set_granted(player, effects, false);
    if effects.luck_bonus != 0 {
        let v = player.luck as i32 - effects.luck_bonus;
        player.luck = (if v < -13 { -13 } else if v > 13 { 13 } else { v }) as i8;
    }
}

/// Whether an artifact warns of monsters shown by `symbol`: Sting of
/// spiders, humanoids and eyes (`s h e E`), Orcrist and Grimtooth of orcs
/// and ogres (`o O`).
pub open spec fn warns_of(id: u8, symbol: char) -> bool {
    if id == 4 {
        symbol == 's' || symbol == 'h' || symbol == 'e' || symbol == 'E'
    } else if id == 5 || id == 6 {
        symbol == 'o' || symbol == 'O'
    } else {
        false
    }
}

/// Check whether an artifact should warn of a monster.
pub fn should_warn_of_monster(artifact_id: u8, monster_symbol: char) -> (r: bool)
    ensures
        r == warns_of(artifact_id, monster_symbol),
{
    match artifact_id {
        4 => monster_symbol == 's' || monster_symbol == 'h' || monster_symbol == 'e' || monster_symbol == 'E',
        5 => monster_symbol == 'o' || monster_symbol == 'O',
        6 => monster_symbol == 'o' || monster_symbol == 'O',
        _ => false,
    }
}

/// The warning an artifact gives, after its name.
pub open spec fn warning_tail(id: u8) -> Option<Seq<char>> {
    if id == 1 { Some(" glows a brilliant blue light!"@) }
    else if id == 2 { Some(" crackles with electricity!"@) }
    else if id == 4 { Some(" feels warm in your hand."@) }
    else if id == 5 { Some(" hums softly."@) }
    else if id == 6 { Some(" pulses with a dull red glow."@) }
    else { None }
}

/// Get the warning message of an artifact.
pub fn get_artifact_warning(artifact_id: u8, artifact_name: &str) -> (r: Option<String>)
    ensures
        warning_tail(artifact_id) is None ==> r is None,
        warning_tail(artifact_id) matches Some(t) ==> (r matches Some(s) && s@ == artifact_name@ + t),
{
    let tail: &str = match artifact_id {
        1 => " glows a brilliant blue light!",
        2 => " crackles with electricity!",
        4 => " feels warm in your hand.",
        5 => " hums softly.",
        6 => " pulses with a dull red glow.",
        _ => {
            return None;
        },
    };
    let mut s = String::from_str(artifact_name);
    s.append(tail);
    Some(s)
}

/// Get the attack bonus of an artifact: its damage bonus.
pub fn get_artifact_attack_bonus(artifact_id: u8) -> (b: i32)
    ensures
        b == effects_table(artifact_id).3,
{
    get_artifact_effects(artifact_id).damage_bonus
}

/// Get the defense bonus of an artifact: its armor class bonus.
pub fn get_artifact_defense_bonus(artifact_id: u8) -> (b: i32)
    ensures
        b == 0,
{
    get_artifact_effects(artifact_id).ac_bonus
}

/// The resistance an artifact must have to protect against a damage type.
pub open spec fn resistance_for(damage_type: Seq<char>) -> Option<ArtifactProperty> {
    if damage_type == "fire"@ { Some(ArtifactProperty::FireResistance) }
    else if damage_type == "cold"@ { Some(ArtifactProperty::ColdResistance) }
    else if damage_type == "poison"@ { Some(ArtifactProperty::PoisonResistance) }
    else if damage_type == "drain"@ { Some(ArtifactProperty::DrainResistance) }
    else if damage_type == "sleep"@ { Some(ArtifactProperty::SleepResistance) }
    else { None }
}

/// Check whether an artifact protects against a damage type (`fire`,
/// `cold`, `poison`, `drain` or `sleep`).
pub fn artifact_provides_protection(artifact_id: u8, damage_type: &str) -> (r: bool)
    ensures
        r == (resistance_for(damage_type@) matches Some(p) && effects_table(artifact_id).0.contains(p)),
{
    let effects = get_artifact_effects(artifact_id);
    let wanted = if str_eq(damage_type, "fire") {
        ArtifactProperty::FireResistance
    } else if str_eq(damage_type, "cold") {
        ArtifactProperty::ColdResistance
    } else if str_eq(damage_type, "poison") {
        ArtifactProperty::PoisonResistance
    } else if str_eq(damage_type, "drain") {
        ArtifactProperty::DrainResistance
    } else if str_eq(damage_type, "sleep") {
        ArtifactProperty::SleepResistance
    } else {
        return false;
    };
    let mut i: usize = 0;
    while i < effects.properties.len()
        invariant
            i <= effects.properties@.len(),
            effects_of(effects, artifact_id),
            resistance_for(damage_type@) == Some(wanted),
            forall|j: int| 0 <= j < i ==> effects.properties@[j] != wanted,
        decreases effects.properties@.len() - i,
    {
        if effects.properties[i] == wanted {
            assert(effects.properties@[i as int] == wanted);
            return true;
        }
        i = i + 1;
    }
    false
}

/// Number of artifact slots tracked.
pub const MAX_ARTIFACTS: usize = 40;

/// Which artifacts exist in the current game and which are discovered.
#[derive(Debug, Clone)]
pub struct ArtifactRegistry {
    /// Whether each artifact exists, by index.
    pub exist: Vec<bool>,
    /// Discovered artifacts in the order found, then zeros.
    pub disco: Vec<u8>,
}

impl ArtifactRegistry {
    /// One slot per artifact in each table.
    pub open spec fn wf(&self) -> bool {
        self.exist@.len() == MAX_ARTIFACTS && self.disco@.len() == MAX_ARTIFACTS
    }

    /// A registry where nothing exists and nothing is discovered.
    pub fn new() -> (r: Self)
        ensures
            r.wf(),
            forall|i: int| 0 <= i < MAX_ARTIFACTS ==> !r.exist@[i] && r.disco@[i] == 0,
    {
        let mut exist: Vec<bool> = Vec::new();
        let mut disco: Vec<u8> = Vec::new();
        let mut i: usize = 0;
        while i < MAX_ARTIFACTS
            invariant
                i <= MAX_ARTIFACTS,
                exist@.len() == i && disco@.len() == i,
                forall|j: int| 0 <= j < i ==> !exist@[j] && disco@[j] == 0,
            decreases MAX_ARTIFACTS - i,
        {
            exist.push(false);
            disco.push(0);
            i = i + 1;
        }
        ArtifactRegistry { exist, disco }
    }
}

/// Reset the registry for a new game: no artifact exists or is discovered.
pub fn init_artifacts(registry: &mut ArtifactRegistry)
    ensures
        final(registry).wf(),
        forall|i: int| 0 <= i < MAX_ARTIFACTS ==> !final(registry).exist@[i] && final(registry).disco@[i] == 0,
{
    *registry = ArtifactRegistry::new();
}

/// Adjust the artifacts to the hero's role and alignment: nothing changes,
/// since the artifact data are fixed.
pub fn hack_artifacts(registry: &mut ArtifactRegistry, role: i16, alignment: i8)
    ensures
        final(registry).exist@ == old(registry).exist@,
        final(registry).disco@ == old(registry).disco@,
{
}

/// Number of `true` entries in `s`.
pub open spec fn count_true(s: Seq<bool>) -> nat
    decreases s.len(),
{
    if s.len() == 0 { 0 } else { count_true(s.drop_last()) + if s.last() { 1nat } else { 0nat } }
}

/// Count the artifacts that exist.
pub fn nartifact_exist(registry: &ArtifactRegistry) -> (n: usize)
    ensures
        n == count_true(registry.exist@),
{
    let mut n: usize = 0;
    let mut i: usize = 0;
    while i < registry.exist.len()
        invariant
            i <= registry.exist@.len(),
            n == count_true(registry.exist@.take(i as int)),
            n <= i,
        decreases registry.exist@.len() - i,
    {
        proof {
            assert(registry.exist@.take(i + 1).drop_last() =~= registry.exist@.take(i as int));
        }
        if registry.exist[i] {
            n = n + 1;
        }
        i = i + 1;
    }
    proof {
        assert(registry.exist@.take(registry.exist@.len() as int) =~= registry.exist@);
    }
    n
}

/// Record whether artifact `artifact_index` exists (index 0 and indices past
/// the table are ignored).
pub fn set_artifact_exists(registry: &mut ArtifactRegistry, artifact_index: usize, exists: bool)
    requires
        old(registry).wf(),
    ensures
        final(registry).wf(),
        final(registry).disco@ == old(registry).disco@,
        final(registry).exist@ == if 0 < artifact_index < MAX_ARTIFACTS {
            old(registry).exist@.update(artifact_index as int, exists)
        } else {
            old(registry).exist@
        },
{
    if artifact_index > 0 && artifact_index < MAX_ARTIFACTS {
        registry.exist.set(artifact_index, exists);
    }
}

/// Whether artifact `artifact_index` exists (never for index 0 or indices
/// past the table).
pub fn artifact_exists(registry: &ArtifactRegistry, artifact_index: usize) -> (r: bool)
    requires
        registry.wf(),
    ensures
        r == (0 < artifact_index < MAX_ARTIFACTS && registry.exist@[artifact_index as int]),
{
    if artifact_index > 0 && artifact_index < MAX_ARTIFACTS {
        registry.exist[artifact_index]
    } else {
        false
    }
}

/// Add an artifact to the discoveries: it takes the first free slot unless
/// it is already listed before one; nothing happens when the list is full.
pub fn discover_artifact(registry: &mut ArtifactRegistry, artifact_index: u8)
    requires
        old(registry).wf(),
    ensures
        final(registry).wf(),
        final(registry).exist@ == old(registry).exist@,
        (exists|i: int| 0 <= i < MAX_ARTIFACTS && (old(registry).disco@[i] == 0
            || old(registry).disco@[i] == artifact_index)) ==> ({
            let k = choose|i: int| 0 <= i < MAX_ARTIFACTS && (old(registry).disco@[i] == 0
                || old(registry).disco@[i] == artifact_index) && forall|j: int| 0 <= j < i ==>
                old(registry).disco@[j] != 0 && old(registry).disco@[j] != artifact_index;
            final(registry).disco@ == old(registry).disco@.update(k, artifact_index)
        }),
        !(exists|i: int| 0 <= i < MAX_ARTIFACTS && (old(registry).disco@[i] == 0
            || old(registry).disco@[i] == artifact_index)) ==> final(registry).disco@ == old(registry).disco@,
{
    let mut i: usize = 0;
    while i < MAX_ARTIFACTS
        invariant
            registry.wf(),
            *registry == *old(registry),
            i <= MAX_ARTIFACTS,
            forall|j: int| 0 <= j < i ==> registry.disco@[j] != 0 && registry.disco@[j] != artifact_index,
        decreases MAX_ARTIFACTS - i,
    {
        if registry.disco[i] == 0 || registry.disco[i] == artifact_index {
            proof {
                let k = choose|k: int| 0 <= k < MAX_ARTIFACTS && (old(registry).disco@[k] == 0
                    || old(registry).disco@[k] == artifact_index) && forall|j: int| 0 <= j < k ==>
                    old(registry).disco@[j] != 0 && old(registry).disco@[j] != artifact_index;
                assert(k == i) by {
                    if k < i {
                        assert(old(registry).disco@[k] != 0);
                    }
                    if k > i {
                        assert(old(registry).disco@[i as int] != 0 && old(registry).disco@[i as int]
                            != artifact_index);
                    }
                }
            }
            registry.disco.set(i, artifact_index);
            return;
        }
        i = i + 1;
    }
}

/// Whether an artifact is among the discoveries listed before the first free slot.
pub fn artifact_discovered(registry: &ArtifactRegistry, artifact_index: u8) -> (r: bool)
    requires
        registry.wf(),
    ensures
        r == exists|i: int| 0 <= i < MAX_ARTIFACTS && registry.disco@[i] == artifact_index
            && forall|j: int| 0 <= j < i ==> registry.disco@[j] != 0,
{
    let mut i: usize = 0;
    while i < MAX_ARTIFACTS
        invariant
            registry.wf(),
            i <= MAX_ARTIFACTS,
            forall|j: int| 0 <= j < i ==> registry.disco@[j] != 0 && registry.disco@[j] != artifact_index,
        decreases MAX_ARTIFACTS - i,
    {
        if registry.disco[i] == artifact_index {
            return true;
        }
        if registry.disco[i] == 0 {
            proof {
                assert forall|k: int| 0 <= k < MAX_ARTIFACTS && registry.disco@[k] == artifact_index implies
                    !(forall|j: int| 0 <= j < k ==> registry.disco@[j] != 0) by {
                    if k > i {
                        assert(registry.disco@[i as int] == 0);
                    }
                }
            }
            return false;
        }
        i = i + 1;
    }
    false
}

/// Magicbane's special hit effects, weakest first.
#[derive(Debug, Clone, Copy, PartialEq, Eq, Structural)]
pub enum MagicbaneEffect {
    Probe,
    Stun,
    Scare,
    Cancel,
}

/// The verb of a Magicbane effect.
pub open spec fn magicbane_verb(e: MagicbaneEffect) -> Seq<char> {
    match e {
        MagicbaneEffect::Probe => "probes"@,
        MagicbaneEffect::Stun => "stuns"@,
        MagicbaneEffect::Scare => "scares"@,
        MagicbaneEffect::Cancel => "cancels"@,
    }
}

/// `8 - min(|spe|, 7)`: the die roll at or below which Magicbane scares.
pub open spec fn scare_roll(spe: int) -> int {
    8 - (if spe < 0 { if -spe < 7 { -spe } else { 7 } } else { if spe < 7 { spe } else { 7 } })
}

/// Magicbane's special hit: a base `d4` of damage; it stuns when a
/// percentage roll reaches the target's magic resistance (another `d4`),
/// scares when the die roll is at most `scare_roll(spe)` (another `d4`), and
/// cancels when it is at most half that (another `d4`). The strongest effect
/// reached is reported.
pub fn mb_hit(is_player_attack: bool, die_roll: i32, spe: i32, target_mr: u8, rng: &mut GameRng)
    -> (r: (i32, Option<MagicbaneEffect>, String))
    requires
        spe != i32::MIN,
    ensures
        ({
            let s0 = old(rng)@;
            let base = dice_at(s0, 1, 4);
            let s1 = step(s0);
            let stun = rn2_at(s1, 100) >= target_mr as u32;
            let s2 = step(s1);
            let stun_dmg = if stun { dice_at(s2, 1, 4) } else { 0 };
            let s3 = if stun { step(s2) } else { s2 };
            let sc = scare_roll(spe as int);
            let scare = die_roll <= sc;
            let scare_dmg = if scare { dice_at(s3, 1, 4) } else { 0 };
            let s4 = if scare { step(s3) } else { s3 };
            let cancel = die_roll <= sc / 2;
            let cancel_dmg = if cancel { dice_at(s4, 1, 4) } else { 0 };
            let s5 = if cancel { step(s4) } else { s4 };
            let effect = if cancel { MagicbaneEffect::Cancel } else if scare { MagicbaneEffect::Scare }
                else if stun { MagicbaneEffect::Stun } else { MagicbaneEffect::Probe };
            &&& r.0 == base + stun_dmg + scare_dmg + cancel_dmg
            &&& r.1 == Some(effect)
            &&& r.2@ == "The magic-absorbing blade "@ + magicbane_verb(effect) + "!"@
            &&& final(rng)@ == s5
        }),
{
    proof {
        reveal_with_fuel(steps, 2);
        reveal_with_fuel(dice_at, 2);
    }
    let mut damage = rng.dice(1, 4) as i32;
    let mut effect = MagicbaneEffect::Probe;
    let a: i32 = if spe < 0 { -spe } else { spe };
    let scare_dieroll = 8 - (if a < 7 { a } else { 7 });
    let do_stun = rng.rn2(100) >= target_mr as u32;
    if do_stun {
        effect = MagicbaneEffect::Stun;
        damage = damage + rng.dice(1, 4) as i32;
    }
    if die_roll <= scare_dieroll {
        effect = MagicbaneEffect::Scare;
        damage = damage + rng.dice(1, 4) as i32;
    }
    if die_roll <= scare_dieroll / 2 {
        effect = MagicbaneEffect::Cancel;
        damage = damage + rng.dice(1, 4) as i32;
    }
    let verb: &str = match effect {
        MagicbaneEffect::Probe => "probes",
        MagicbaneEffect::Stun => "stuns",
        MagicbaneEffect::Scare => "scares",
        MagicbaneEffect::Cancel => "cancels",
    };
    let mut message = String::from_str("The magic-absorbing blade ");
    message.append(verb);
    message.append("!");
    (damage, Some(effect), message)
}

/// Putting an artifact on and taking it off again undoes it: the properties
/// it grants are no longer intrinsic, every other property is as it was,
/// and the hero is otherwise as before, luck included, whenever the luck
/// bonus did not push luck past -13..=13.
pub proof fn lemma_artifact_on_then_off(a: You, b: You, c: You, e: ArtifactEffects)
    requires
        artifact_applied(a, b, e, true),
        artifact_applied(b, c, e, false),
        -13 <= a.luck <= 13,
        -13 <= a.luck + e.luck_bonus <= 13,
    ensures
        forall|p: Property| #[trigger] c.properties.is_intrinsic(p) == if grants(e.properties@, p) {
            false
        } else {
            a.properties.is_intrinsic(p)
        },
        c == (You { properties: c.properties, ..a }),
        c.properties.timeout@ == a.properties.timeout@,
{
    assert forall|p: Property| #[trigger] c.properties.is_intrinsic(p) == if grants(e.properties@, p) {
        false
    } else {
        a.properties.is_intrinsic(p)
    } by {
        assert(b.properties.is_intrinsic(p) == if grants(e.properties@, p) { true } else {
            a.properties.is_intrinsic(p) });
    }
}

} // verus!
