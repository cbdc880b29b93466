//! Monsters on a level, as far as the level rules read them.

use vstd::prelude::*;

verus! {

/// Status flags of a monster.
#[derive(Debug, Clone, Copy, PartialEq, Eq, Structural)]
pub struct MonsterState {
    pub sleeping: bool,
    pub peaceful: bool,
    pub can_move: bool,
    pub paralyzed: bool,
    pub hasted: bool,
    pub blinded: bool,
    pub confused: bool,
    pub invisible: bool,
}

impl Default for MonsterState {
    /// A monster placed asleep.
    fn default() -> (s: MonsterState)
        ensures
            s.sleeping && !s.peaceful && s.can_move && !s.paralyzed && !s.hasted && !s.blinded,
            !s.confused && !s.invisible,
    {
        MonsterState::default_state()
    }
}

impl MonsterState {
    /// The state of a monster placed asleep.
    pub fn default_state() -> (s: MonsterState)
        ensures
            s.sleeping && !s.peaceful && s.can_move && !s.paralyzed && !s.hasted && !s.blinded,
            !s.confused && !s.invisible,
    {
        MonsterState {
            sleeping: true,
            peaceful: false,
            can_move: true,
            paralyzed: false,
            hasted: false,
            blinded: false,
            confused: false,
            invisible: false,
        }
    }

    /// The state of an awake monster.
    pub fn active() -> (s: MonsterState)
        ensures
            !s.sleeping && !s.peaceful && s.can_move && !s.paralyzed && !s.hasted && !s.blinded,
            !s.confused && !s.invisible,
    {
        MonsterState {
            sleeping: false,
            peaceful: false,
            can_move: true,
            paralyzed: false,
            hasted: false,
            blinded: false,
            confused: false,
            invisible: false,
        }
    }
}

/// What a monster resists.
#[derive(Debug, Clone, Copy, PartialEq, Eq, Structural)]
pub struct MonsterResistances {
    pub fire: bool,
    pub cold: bool,
    pub sleep: bool,
    pub disintegration: bool,
    pub shock: bool,
    pub poison: bool,
    pub acid: bool,
    pub stoning: bool,
}

impl MonsterResistances {
    /// The value with no resistances.
    pub open spec fn empty_spec() -> MonsterResistances {
        MonsterResistances {
            fire: false,
            cold: false,
            sleep: false,
            disintegration: false,
            shock: false,
            poison: false,
            acid: false,
            stoning: false,
        }
    }

    /// No resistances.
    pub fn empty() -> (r: MonsterResistances)
        ensures
            r == Self::empty_spec(),
    {
        MonsterResistances {
            fire: false,
            cold: false,
            sleep: false,
            disintegration: false,
            shock: false,
            poison: false,
            acid: false,
            stoning: false,
        }
    }
}

/// Identity of a monster instance.
#[derive(Debug, Clone, Copy, PartialEq, Eq, Hash, Structural)]
pub struct MonsterId(pub u32);

/// A monster instance.
#[derive(Debug, Clone)]
pub struct Monster {
    pub id: MonsterId,
    pub monster_type: i16,
    pub x: i8,
    pub y: i8,
    pub hp: i32,
    pub hp_max: i32,
    pub name: String,
    pub state: MonsterState,
    pub sleep_timeout: i32,
    pub resistances: MonsterResistances,
    /// Whether the monster's kind is undead.
    pub undead: bool,
    /// Whether the monster's kind is a demon.
    pub demon: bool,
}

impl Monster {
    /// A monster of type `monster_type` at `(x, y)`, awake, with 1 hit point.
    pub fn new(id: MonsterId, monster_type: i16, x: i8, y: i8) -> (m: Monster)
        ensures
            m.id == id,
            m.monster_type == monster_type,
            m.x == x && m.y == y,
            m.hp == 1 && m.hp_max == 1,
            m.name@ == Seq::<char>::empty(),
            !m.state.sleeping && !m.state.peaceful && m.state.can_move,
            !m.state.paralyzed && !m.state.hasted && !m.state.blinded,
            !m.state.confused && !m.state.invisible,
            m.sleep_timeout == 0,
            m.resistances == MonsterResistances::empty_spec(),
            !m.undead && !m.demon,
    {
        Monster {
            id,
            monster_type,
            x,
            y,
            hp: 1,
            hp_max: 1,
            name: String::new(),
            state: MonsterState::active(),
            sleep_timeout: 0,
            resistances: MonsterResistances::empty(),
            undead: false,
            demon: false,
        }
    }

    /// Whether the monster is undead.
    pub fn is_undead(&self) -> (r: bool)
        ensures
            r == self.undead,
    {
        self.undead
    }

    /// Whether the monster is a demon.
    pub fn is_demon(&self) -> (r: bool)
        ensures
            r == self.demon,
    {
        self.demon
    }
}

} // verus!
