//! Casting stances, and how long the caster has held one.

use vstd::prelude::*;

verus! {

/// Stances a caster can hold.
#[derive(Debug, Clone, Copy, PartialEq, Eq, Hash, Structural)]
pub enum CastingStance {
    Balanced,
    Aggressive,
    Defensive,
    Concentrated,
    Reckless,
    Efficient,
}

impl Default for CastingStance {
    /// The balanced stance.
    fn default() -> (s: Self)
        ensures
            s == CastingStance::Balanced,
    {
        CastingStance::Balanced
    }
}

/// The name of a stance.
pub open spec fn stance_name(s: CastingStance) -> Seq<char> {
    match s {
        CastingStance::Balanced => "Balanced"@,
        CastingStance::Aggressive => "Aggressive"@,
        CastingStance::Defensive => "Defensive"@,
        CastingStance::Concentrated => "Concentrated"@,
        CastingStance::Reckless => "Reckless"@,
        CastingStance::Efficient => "Efficient"@,
    }
}

/// Every stance, in order.
pub open spec fn all_stances() -> Seq<CastingStance> {
    seq![
        CastingStance::Balanced,
        CastingStance::Aggressive,
        CastingStance::Defensive,
        CastingStance::Concentrated,
        CastingStance::Reckless,
        CastingStance::Efficient,
    ]
}

impl CastingStance {
    /// The stance's name.
    pub fn name(&self) -> (s: &'static str)
        ensures
            s@ == stance_name(*self),
    {
        match self {
            CastingStance::Balanced => "Balanced",
            CastingStance::Aggressive => "Aggressive",
            CastingStance::Defensive => "Defensive",
            CastingStance::Concentrated => "Concentrated",
            CastingStance::Reckless => "Reckless",
            CastingStance::Efficient => "Efficient",
        }
    }

    /// Every stance, in order.
    pub fn all() -> (v: Vec<CastingStance>)
        ensures
            v@ == all_stances(),
    {
        let v = vec![
            CastingStance::Balanced,
            CastingStance::Aggressive,
            CastingStance::Defensive,
            CastingStance::Concentrated,
            CastingStance::Reckless,
            CastingStance::Efficient,
        ];
        assert(v@ =~= all_stances());
        v
    }
}

/// The stance held, and for how many turns.
#[derive(Debug, Clone)]
pub struct StanceTracker {
    pub current_stance: CastingStance,
    pub turns_in_stance: u32,
}

impl Default for StanceTracker {
    /// Balanced, just taken.
    fn default() -> (t: Self)
        ensures
            t.current_stance == CastingStance::Balanced && t.turns_in_stance == 0,
    {
        StanceTracker::new()
    }
}

impl StanceTracker {
    /// Balanced, just taken.
    pub fn new() -> (t: Self)
        ensures
            t.current_stance == CastingStance::Balanced && t.turns_in_stance == 0,
    {
        StanceTracker { current_stance: CastingStance::Balanced, turns_in_stance: 0 }
    }

    /// Take a stance; the count of turns starts again.
    pub fn set_stance(&mut self, stance: CastingStance)
        ensures
            final(self).current_stance == stance && final(self).turns_in_stance == 0,
    {
        self.current_stance = stance;
        self.turns_in_stance = 0;
    }

    /// A turn passes in the stance.
    pub fn tick(&mut self)
        requires
            old(self).turns_in_stance < u32::MAX,
        ensures
            final(self).current_stance == old(self).current_stance,
            final(self).turns_in_stance == old(self).turns_in_stance + 1,
    {
        self.turns_in_stance = self.turns_in_stance + 1;
    }
}

/// What a stance does to a caster besides scaling damage and mana: the
/// change to the failure chance, to armor class, to movement, and to the
/// risk of backlash.
#[derive(Debug, Clone, Copy, PartialEq, Eq, Structural)]
pub struct StanceEffects {
    pub failure_rate_change: i32,
    pub ac_bonus: i8,
    pub movement_penalty: i8,
    pub backlash_risk: i32,
}

/// The effects of a stance.
pub open spec fn stance_effects(s: CastingStance) -> StanceEffects {
    match s {
        CastingStance::Balanced => StanceEffects {
            failure_rate_change: 0i32,
            ac_bonus: 0i8,
            movement_penalty: 0i8,
            backlash_risk: 0i32,
        },
        CastingStance::Aggressive => StanceEffects {
            failure_rate_change: 10i32,
            ac_bonus: -2i8,
            movement_penalty: 1i8,
            backlash_risk: 15i32,
        },
        CastingStance::Defensive => StanceEffects {
            failure_rate_change: -10i32,
            ac_bonus: 3i8,
            movement_penalty: 0i8,
            backlash_risk: -10i32,
        },
        CastingStance::Concentrated => StanceEffects {
            failure_rate_change: -15i32,
            ac_bonus: -1i8,
            movement_penalty: 2i8,
            backlash_risk: 0i32,
        },
        CastingStance::Reckless => StanceEffects {
            failure_rate_change: 25i32,
            ac_bonus: -4i8,
            movement_penalty: 2i8,
            backlash_risk: 50i32,
        },
        CastingStance::Efficient => StanceEffects {
            failure_rate_change: 5i32,
            ac_bonus: 1i8,
            movement_penalty: 0i8,
            backlash_risk: -5i32,
        },
    }
}

impl StanceEffects {
    /// The effects of a stance.
    pub fn for_stance(stance: CastingStance) -> (e: Self)
        ensures
            e == stance_effects(stance),
    {
        match stance {
            CastingStance::Balanced => StanceEffects {
                failure_rate_change: 0,
                ac_bonus: 0,
                movement_penalty: 0,
                backlash_risk: 0,
            },
            CastingStance::Aggressive => StanceEffects {
                failure_rate_change: 10,
                ac_bonus: -2,
                movement_penalty: 1,
                backlash_risk: 15,
            },
            CastingStance::Defensive => StanceEffects {
                failure_rate_change: -10,
                ac_bonus: 3,
                movement_penalty: 0,
                backlash_risk: -10,
            },
            CastingStance::Concentrated => StanceEffects {
                failure_rate_change: -15,
                ac_bonus: -1,
                movement_penalty: 2,
                backlash_risk: 0,
            },
            CastingStance::Reckless => StanceEffects {
                failure_rate_change: 25,
                ac_bonus: -4,
                movement_penalty: 2,
                backlash_risk: 50,
            },
            CastingStance::Efficient => StanceEffects {
                failure_rate_change: 5,
                ac_bonus: 1,
                movement_penalty: 0,
                backlash_risk: -5,
            },
        }
    }
}

/// The failure chance of a spell under a stance's change to it, kept
/// between 0 and 100.
pub fn failure_under_stance(base_failure: i32, failure_rate_change: i32) -> (r: i32)
    requires
        i32::MIN <= base_failure + failure_rate_change <= i32::MAX,
    ensures
        r == (if base_failure + failure_rate_change < 0 {
            0
        } else if base_failure + failure_rate_change > 100 {
            100
        } else {
            base_failure + failure_rate_change
        }),
{
    let f = base_failure + failure_rate_change;
    if f < 0 {
        0
    } else if f > 100 {
        100
    } else {
        f
    }
}

} // verus!
