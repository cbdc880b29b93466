//! Ritual casting: multi-turn spells that draw mana every turn, can be
//! disrupted, and produce a powerful effect when completed.

use vstd::prelude::*;
use vstd::string::*;
use crate::rng::{GameRng, rn2_at, step};
use crate::text::{int_str, nat_str, push_int, push_nat};

verus! {

/// Types of ritual spells.
#[derive(Debug, Clone, Copy, PartialEq, Eq, Hash, Structural)]
pub enum RitualSpellType {
    GreaterSummoning,
    MassHealing,
    Resurrection,
    TimeStop,
    Wish,
    MeteorSwarm,
    HolyNuking,
    DominateCreature,
}

/// Display name of a ritual.
pub open spec fn ritual_name(r: RitualSpellType) -> Seq<char> {
    match r {
        RitualSpellType::GreaterSummoning => "Greater Summoning"@,
        RitualSpellType::MassHealing => "Mass Healing"@,
        RitualSpellType::Resurrection => "Resurrection"@,
        RitualSpellType::TimeStop => "Time Stop"@,
        RitualSpellType::Wish => "Wish"@,
        RitualSpellType::MeteorSwarm => "Meteor Swarm"@,
        RitualSpellType::HolyNuking => "Holy Nuking"@,
        RitualSpellType::DominateCreature => "Dominate Creature"@,
    }
}

/// Turns a ritual takes.
pub open spec fn ritual_turns(r: RitualSpellType) -> u32 {
    match r {
        RitualSpellType::GreaterSummoning => 5,
        RitualSpellType::MassHealing => 3,
        RitualSpellType::Resurrection => 10,
        RitualSpellType::TimeStop => 8,
        RitualSpellType::Wish => 15,
        RitualSpellType::MeteorSwarm => 7,
        RitualSpellType::HolyNuking => 6,
        RitualSpellType::DominateCreature => 9,
    }
}

/// Mana a ritual draws each turn.
pub open spec fn ritual_mana(r: RitualSpellType) -> i32 {
    match r {
        RitualSpellType::GreaterSummoning => 50,
        RitualSpellType::MassHealing => 30,
        RitualSpellType::Resurrection => 100,
        RitualSpellType::TimeStop => 80,
        RitualSpellType::Wish => 150,
        RitualSpellType::MeteorSwarm => 70,
        RitualSpellType::HolyNuking => 60,
        RitualSpellType::DominateCreature => 90,
    }
}

/// Percentage of the mana wasted when a ritual is disrupted.
pub open spec fn ritual_risk(r: RitualSpellType) -> i32 {
    match r {
        RitualSpellType::GreaterSummoning => 20,
        RitualSpellType::MassHealing => 10,
        RitualSpellType::Resurrection => 50,
        RitualSpellType::TimeStop => 40,
        RitualSpellType::Wish => 90,
        RitualSpellType::MeteorSwarm => 30,
        RitualSpellType::HolyNuking => 25,
        RitualSpellType::DominateCreature => 35,
    }
}

impl RitualSpellType {
    /// Get the ritual's name.
    pub fn name(&self) -> (s: &'static str)
        ensures
            s@ == ritual_name(*self),
    {
        match self {
            RitualSpellType::GreaterSummoning => "Greater Summoning",
            RitualSpellType::MassHealing => "Mass Healing",
            RitualSpellType::Resurrection => "Resurrection",
            RitualSpellType::TimeStop => "Time Stop",
            RitualSpellType::Wish => "Wish",
            RitualSpellType::MeteorSwarm => "Meteor Swarm",
            RitualSpellType::HolyNuking => "Holy Nuking",
            RitualSpellType::DominateCreature => "Dominate Creature",
        }
    }

    /// Get the turns required to complete the ritual.
    pub fn turns_required(&self) -> (t: u32)
        ensures
            t == ritual_turns(*self),
            3 <= t <= 15,
    {
        match self {
            RitualSpellType::GreaterSummoning => 5,
            RitualSpellType::MassHealing => 3,
            RitualSpellType::Resurrection => 10,
            RitualSpellType::TimeStop => 8,
            RitualSpellType::Wish => 15,
            RitualSpellType::MeteorSwarm => 7,
            RitualSpellType::HolyNuking => 6,
            RitualSpellType::DominateCreature => 9,
        }
    }

    /// Get the mana cost per turn.
    pub fn mana_cost_per_turn(&self) -> (m: i32)
        ensures
            m == ritual_mana(*self),
            30 <= m <= 150,
    {
        match self {
            RitualSpellType::GreaterSummoning => 50,
            RitualSpellType::MassHealing => 30,
            RitualSpellType::Resurrection => 100,
            RitualSpellType::TimeStop => 80,
            RitualSpellType::Wish => 150,
            RitualSpellType::MeteorSwarm => 70,
            RitualSpellType::HolyNuking => 60,
            RitualSpellType::DominateCreature => 90,
        }
    }

    /// Get the total mana required: the cost per turn times the turns.
    pub fn total_mana_required(&self) -> (m: i32)
        ensures
            m == ritual_mana(*self) * ritual_turns(*self),
    {
        self.mana_cost_per_turn() * (self.turns_required() as i32)
    }

    /// Get the failure chance (0-100) if interrupted.
    pub fn interruption_risk(&self) -> (r: i32)
        ensures
            r == ritual_risk(*self),
    {
        match self {
            RitualSpellType::GreaterSummoning => 20,
            RitualSpellType::MassHealing => 10,
            RitualSpellType::Resurrection => 50,
            RitualSpellType::TimeStop => 40,
            RitualSpellType::Wish => 90,
            RitualSpellType::MeteorSwarm => 30,
            RitualSpellType::HolyNuking => 25,
            RitualSpellType::DominateCreature => 35,
        }
    }
}

/// Progress of a ritual.
#[derive(Debug, Clone)]
pub struct RitualProgress {
    pub ritual_type: RitualSpellType,
    pub turns_completed: u32,
    pub mana_invested: i32,
    pub interrupted: bool,
    /// Where the ritual was started (for area effects).
    pub start_x: i8,
    pub start_y: i8,
}

/// `min(turns * 100 / required, 100)`.
pub open spec fn percent_of(turns: int, required: int) -> int {
    if turns * 100 / required < 100 { turns * 100 / required } else { 100 }
}

impl RitualProgress {
    /// A ritual just begun at `(x, y)`.
    pub fn new(ritual_type: RitualSpellType, x: i8, y: i8) -> (p: Self)
        ensures
            p == (RitualProgress { ritual_type, turns_completed: 0, mana_invested: 0, interrupted: false,
                start_x: x, start_y: y }),
    {
        RitualProgress { ritual_type, turns_completed: 0, mana_invested: 0, interrupted: false, start_x: x, start_y: y }
    }

    /// Get the percentage complete, at most 100.
    pub fn percent_complete(&self) -> (p: u32)
        requires
            self.turns_completed * 100 <= u32::MAX,
        ensures
            p == percent_of(self.turns_completed as int, ritual_turns(self.ritual_type) as int),
    {
        let p = (self.turns_completed * 100) / self.ritual_type.turns_required();
        if p < 100 { p } else { 100 }
    }

    /// Whether all the turns of the ritual are done.
    pub fn is_complete(&self) -> (r: bool)
        ensures
            r == (self.turns_completed >= ritual_turns(self.ritual_type)),
    {
        self.turns_completed >= self.ritual_type.turns_required()
    }

    /// Advance the ritual by one turn, drawing its mana, unless it was interrupted.
    pub fn advance_turn(&mut self)
        requires
            !old(self).interrupted ==> old(self).turns_completed < u32::MAX
                && old(self).mana_invested + ritual_mana(old(self).ritual_type) <= i32::MAX,
        ensures
            old(self).interrupted ==> *final(self) == *old(self),
            !old(self).interrupted ==> *final(self) == (RitualProgress {
                turns_completed: (old(self).turns_completed + 1) as u32,
                mana_invested: (old(self).mana_invested + ritual_mana(old(self).ritual_type)) as i32,
                ..*old(self) }),
    {
        if !self.interrupted {
            self.turns_completed = self.turns_completed + 1;
            self.mana_invested = self.mana_invested + self.ritual_type.mana_cost_per_turn();
        }
    }

    /// Interrupt the ritual.
    pub fn interrupt(&mut self)
        ensures
            *final(self) == (RitualProgress { interrupted: true, ..*old(self) }),
    {
        self.interrupted = true;
    }

    /// Get a status line for the ritual.
    pub fn status_message(&self) -> (s: String)
        requires
            self.turns_completed * 100 <= u32::MAX,
        ensures
            s@ == status_text(*self),
    {
        if self.interrupted {
            let mut s = String::from_str("Ritual ");
            s.append(self.ritual_type.name());
            s.append(" was interrupted!");
            s
        } else {
            let mut s = String::from_str("Ritual ");
            s.append(self.ritual_type.name());
            s.append(" ");
            push_nat(&mut s, self.percent_complete() as u64);
            s.append("% complete (");
            push_nat(&mut s, self.turns_completed as u64);
            s.append("/");
            push_nat(&mut s, self.ritual_type.turns_required() as u64);
            s.append(")");
            s
        }
    }
}

/// The status line of a ritual.
pub open spec fn status_text(p: RitualProgress) -> Seq<char> {
    if p.interrupted {
        "Ritual "@ + ritual_name(p.ritual_type) + " was interrupted!"@
    } else {
        "Ritual "@ + ritual_name(p.ritual_type) + " "@
            + nat_str(percent_of(p.turns_completed as int, ritual_turns(p.ritual_type) as int) as nat)
            + "% complete ("@ + nat_str(p.turns_completed as nat) + "/"@
            + nat_str(ritual_turns(p.ritual_type) as nat) + ")"@
    }
}

/// Tracker of the ritual in progress and of past rituals.
#[derive(Debug, Clone)]
pub struct RitualTracker {
    pub active_ritual: Option<RitualProgress>,
    pub rituals_completed: u32,
    pub rituals_interrupted: u32,
}

impl Default for RitualTracker {
    fn default() -> (t: Self)
        ensures
            t.active_ritual is None,
            t.rituals_completed == 0,
            t.rituals_interrupted == 0,
    {
        RitualTracker { active_ritual: None, rituals_completed: 0, rituals_interrupted: 0 }
    }
}

impl RitualTracker {
    /// A tracker with no ritual in progress.
    pub fn new() -> (t: Self)
        ensures
            t.active_ritual is None,
            t.rituals_completed == 0,
            t.rituals_interrupted == 0,
    {
        RitualTracker { active_ritual: None, rituals_completed: 0, rituals_interrupted: 0 }
    }

    /// Whether a ritual is in progress.
    pub fn is_in_progress(&self) -> (r: bool)
        ensures
            r == self.active_ritual is Some,
    {
        self.active_ritual.is_some()
    }

    /// The ritual in progress, if any.
    pub fn active_ritual(&self) -> (r: Option<&RitualProgress>)
        ensures
            r == (match self.active_ritual {
                Some(p) => Some(&p),
                None => None::<&RitualProgress>,
            }),
    {
        self.active_ritual.as_ref()
    }

    /// The ritual in progress, for changing it.
    pub fn active_ritual_mut(&mut self) -> (r: Option<&mut RitualProgress>)
        ensures
            old(self).active_ritual is None ==> r is None && *final(self) == *old(self),
            old(self).active_ritual is Some ==> r is Some && *r.unwrap() == old(self).active_ritual.unwrap()
                && final(self).active_ritual == Some(*final(r.unwrap()))
                && final(self).rituals_completed == old(self).rituals_completed
                && final(self).rituals_interrupted == old(self).rituals_interrupted,
    {
        self.active_ritual.as_mut()
    }

    /// Drop the ritual in progress.
    pub fn reset(&mut self)
        ensures
            *final(self) == (RitualTracker { active_ritual: None, ..*old(self) }),
    {
        self.active_ritual = None;
    }
}

/// Begin a ritual: refused, with the mana it needs, unless the caster has at
/// least the ritual's total mana.
pub fn begin_ritual(ritual_type: RitualSpellType, player_x: i8, player_y: i8, player_energy: i32)
    -> (r: Result<RitualProgress, String>)
    ensures
        player_energy < ritual_mana(ritual_type) * ritual_turns(ritual_type) ==> (r matches Err(e)
            && e@ == "Not enough energy to complete ritual. Need "@
                + int_str(ritual_mana(ritual_type) * ritual_turns(ritual_type)) + " mana."@),
        player_energy >= ritual_mana(ritual_type) * ritual_turns(ritual_type) ==> r == Ok::<RitualProgress, String>(
            RitualProgress { ritual_type, turns_completed: 0, mana_invested: 0, interrupted: false,
                start_x: player_x, start_y: player_y }),
{
    let total = ritual_type.total_mana_required();
    if player_energy < total {
        let mut s = String::from_str("Not enough energy to complete ritual. Need ");
        push_int(&mut s, total as i64);
        s.append(" mana.");
        return Err(s);
    }
    Ok(RitualProgress::new(ritual_type, player_x, player_y))
}

/// The ritual and message after one turn of advancing `p`, with `roll` the
/// percentage roll checked against the disruption chance.
pub open spec fn advance_outcome(p: RitualProgress, disruption_chance: i32, roll: int) -> (RitualProgress, Seq<char>) {
    if p.turns_completed >= ritual_turns(p.ritual_type) {
        (p, "Ritual is already complete!"@)
    } else if roll < (disruption_chance as u32) {
        (RitualProgress { interrupted: true, ..p },
            "The ritual is disrupted! "@ + int_str(ritual_risk(p.ritual_type) as int) + " % of mana is wasted."@)
    } else {
        let q = if p.interrupted { p } else {
            RitualProgress {
                turns_completed: (p.turns_completed + 1) as u32,
                mana_invested: (p.mana_invested + ritual_mana(p.ritual_type)) as i32,
                ..p }
        };
        if q.turns_completed >= ritual_turns(q.ritual_type) {
            (q, "Ritual "@ + ritual_name(q.ritual_type) + " is complete!"@)
        } else {
            (q, "Continuing ritual "@ + ritual_name(q.ritual_type) + "... ("@ + nat_str(q.turns_completed as nat)
                + "/"@ + nat_str(ritual_turns(q.ritual_type) as nat) + ")"@)
        }
    }
}

/// Advance a ritual by one turn: it is disrupted with `disruption_chance`
/// percent; otherwise a turn is done. Returns what happened.
pub fn advance_ritual(ritual: &mut RitualProgress, disruption_chance: i32, rng: &mut GameRng) -> (msg: String)
    requires
        old(ritual).mana_invested + 150 <= i32::MAX,
    ensures
        (*final(ritual), msg@) == advance_outcome(*old(ritual), disruption_chance,
            rn2_at(old(rng)@, 100) as int),
        old(ritual).turns_completed >= ritual_turns(old(ritual).ritual_type) ==> final(rng)@ == old(rng)@,
        old(ritual).turns_completed < ritual_turns(old(ritual).ritual_type) ==> final(rng)@ == step(old(rng)@),
{
    if ritual.is_complete() {
        return String::from_str("Ritual is already complete!");
    }
    if rng.percent(disruption_chance as u32) {
        ritual.interrupt();
        let mut s = String::from_str("The ritual is disrupted! ");
        push_int(&mut s, ritual.ritual_type.interruption_risk() as i64);
        s.append(" % of mana is wasted.");
        return s;
    }
    ritual.advance_turn();
    if ritual.is_complete() {
        let mut s = String::from_str("Ritual ");
        s.append(ritual.ritual_type.name());
        s.append(" is complete!");
        s
    } else {
        let mut s = String::from_str("Continuing ritual ");
        s.append(ritual.ritual_type.name());
        s.append("... (");
        push_nat(&mut s, ritual.turns_completed as u64);
        s.append("/");
        push_nat(&mut s, ritual.ritual_type.turns_required() as u64);
        s.append(")");
        s
    }
}

/// Effects produced by completing a ritual.
#[derive(Debug, Clone)]
pub enum RitualEffect {
    Failed(String),
    Summoning { creature_count: i32, message: String },
    Healing { heal_amount: i32, radius: i32, message: String },
    Resurrection { message: String },
    TimeStop { duration: u32, message: String },
    Wish { message: String },
    Destruction { damage: i32, radius: i32, message: String },
    Domination { message: String },
}

/// The message carried by an effect.
pub open spec fn effect_message(e: RitualEffect) -> Seq<char> {
    match e {
        RitualEffect::Failed(m) => m@,
        RitualEffect::Summoning { message, .. } => message@,
        RitualEffect::Healing { message, .. } => message@,
        RitualEffect::Resurrection { message } => message@,
        RitualEffect::TimeStop { message, .. } => message@,
        RitualEffect::Wish { message } => message@,
        RitualEffect::Destruction { message, .. } => message@,
        RitualEffect::Domination { message } => message@,
    }
}

impl RitualEffect {
    /// Get the effect's message.
    pub fn message(&self) -> (s: &str)
        ensures
            s@ == effect_message(*self),
    {
        match self {
            RitualEffect::Failed(msg) => msg.as_str(),
            RitualEffect::Summoning { message, .. } => message.as_str(),
            RitualEffect::Healing { message, .. } => message.as_str(),
            RitualEffect::Resurrection { message } => message.as_str(),
            RitualEffect::TimeStop { message, .. } => message.as_str(),
            RitualEffect::Wish { message } => message.as_str(),
            RitualEffect::Destruction { message, .. } => message.as_str(),
            RitualEffect::Domination { message } => message.as_str(),
        }
    }
}

/// The effect of finishing a ritual: failure unless all turns were done
/// without interruption; otherwise the ritual's own effect.
pub open spec fn ritual_effect_ok(p: RitualProgress, e: RitualEffect) -> bool {
    if p.turns_completed < ritual_turns(p.ritual_type) || p.interrupted {
        e matches RitualEffect::Failed(m) && m@ == "Ritual was not completed or was interrupted."@
    } else {
        match p.ritual_type {
            RitualSpellType::GreaterSummoning => e matches RitualEffect::Summoning { creature_count, message }
                && creature_count == 3 && message@ == "Three powerful creatures materialize!"@,
            RitualSpellType::MassHealing => e matches RitualEffect::Healing { heal_amount, radius, message }
                && heal_amount == 100 && radius == 10 && message@ == "Holy light bathes the area, healing all!"@,
            RitualSpellType::Resurrection => e matches RitualEffect::Resurrection { message }
                && message@ == "A creature is returned to life!"@,
            RitualSpellType::TimeStop => e matches RitualEffect::TimeStop { duration, message }
                && duration == 3 && message@ == "Time itself seems to freeze around you!"@,
            RitualSpellType::Wish => e matches RitualEffect::Wish { message }
                && message@ == "You feel the universe bending to your will..."@,
            RitualSpellType::MeteorSwarm => e matches RitualEffect::Destruction { damage, radius, message }
                && damage == 150 && radius == 8 && message@ == "Meteors rain down on the battlefield!"@,
            RitualSpellType::HolyNuking => e matches RitualEffect::Destruction { damage, radius, message }
                && damage == 200 && radius == 10 && message@ == "Divine fury strikes down all undead!"@,
            RitualSpellType::DominateCreature => e matches RitualEffect::Domination { message }
                && message@ == "A creature bends to your will!"@,
        }
    }
}

/// Complete a ritual and produce its effect.
pub fn complete_ritual(ritual: &RitualProgress) -> (e: RitualEffect)
    ensures
        ritual_effect_ok(*ritual, e),
{
    if !ritual.is_complete() || ritual.interrupted {
        return RitualEffect::Failed(String::from_str("Ritual was not completed or was interrupted."));
    }
    match ritual.ritual_type {
        RitualSpellType::GreaterSummoning => RitualEffect::Summoning {
            creature_count: 3,
            message: String::from_str("Three powerful creatures materialize!"),
        },
        RitualSpellType::MassHealing => RitualEffect::Healing {
            heal_amount: 100,
            radius: 10,
            message: String::from_str("Holy light bathes the area, healing all!"),
        },
        RitualSpellType::Resurrection => RitualEffect::Resurrection {
            message: String::from_str("A creature is returned to life!"),
        },
        RitualSpellType::TimeStop => RitualEffect::TimeStop {
            duration: 3,
            message: String::from_str("Time itself seems to freeze around you!"),
        },
        RitualSpellType::Wish => RitualEffect::Wish {
            message: String::from_str("You feel the universe bending to your will..."),
        },
        RitualSpellType::MeteorSwarm => RitualEffect::Destruction {
            damage: 150,
            radius: 8,
            message: String::from_str("Meteors rain down on the battlefield!"),
        },
        RitualSpellType::HolyNuking => RitualEffect::Destruction {
            damage: 200,
            radius: 10,
            message: String::from_str("Divine fury strikes down all undead!"),
        },
        RitualSpellType::DominateCreature => RitualEffect::Domination {
            message: String::from_str("A creature bends to your will!"),
        },
    }
}

} // verus!
