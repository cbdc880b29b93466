//! Rings: the powers they grant while worn, the energy they drain, and the
//! feedback of an over-drained ring.

use vstd::prelude::*;
use crate::player::{Attribute, Attributes, Property, You, prop_index};
use crate::rng::{GameRng, rn2_at, step};

verus! {

/// Ring powers.
#[derive(Debug, Clone, Copy, PartialEq, Eq, Hash, Structural)]
pub enum RingPower {
    Strength,
    Dexterity,
    Constitution,
    Intelligence,
    Wisdom,
    Charisma,
    Protection,
    FireResistance,
    ColdResistance,
    PoisonResistance,
    Speed,
    Levitation,
    Teleportation,
    TeleportControl,
    SeeInvisible,
    Infravision,
    Regeneration,
    Invisibility,
    FreeAction,
    Stealth,
}

/// The name of a ring of power `p`.
pub open spec fn ring_name(p: RingPower) -> Seq<char> {
    match p {
        RingPower::Strength => "ring of strength"@,
        RingPower::Dexterity => "ring of dexterity"@,
        RingPower::Constitution => "ring of constitution"@,
        RingPower::Intelligence => "ring of intelligence"@,
        RingPower::Wisdom => "ring of wisdom"@,
        RingPower::Charisma => "ring of charisma"@,
        RingPower::Protection => "ring of protection"@,
        RingPower::FireResistance => "ring of fire resistance"@,
        RingPower::ColdResistance => "ring of cold resistance"@,
        RingPower::PoisonResistance => "ring of poison resistance"@,
        RingPower::Speed => "ring of speed"@,
        RingPower::Levitation => "ring of levitation"@,
        RingPower::Teleportation => "ring of teleportation"@,
        RingPower::TeleportControl => "ring of teleport control"@,
        RingPower::SeeInvisible => "ring of see invisible"@,
        RingPower::Infravision => "ring of infravision"@,
        RingPower::Regeneration => "ring of regeneration"@,
        RingPower::Invisibility => "ring of invisibility"@,
        RingPower::FreeAction => "ring of free action"@,
        RingPower::Stealth => "ring of stealth"@,
    }
}

/// Energy a ring of power `p` drains each turn.
pub open spec fn ring_drain(p: RingPower) -> int {
    match p {
        RingPower::Strength | RingPower::Dexterity | RingPower::Constitution => 1,
        RingPower::SeeInvisible | RingPower::Infravision => 1,
        RingPower::Protection | RingPower::FireResistance | RingPower::ColdResistance => 2,
        RingPower::Regeneration | RingPower::FreeAction => 2,
        RingPower::Speed => 4,
        RingPower::Invisibility => 5,
        RingPower::Levitation => 3,
        RingPower::Teleportation => 6,
        RingPower::Intelligence | RingPower::Wisdom | RingPower::Charisma => 2,
        RingPower::TeleportControl => 4,
        RingPower::PoisonResistance => 2,
        RingPower::Stealth => 3,
    }
}

/// Whether an over-drained ring of power `p` feeds back.
pub open spec fn ring_feeds_back(p: RingPower) -> bool {
    p == RingPower::Speed || p == RingPower::Invisibility || p == RingPower::Teleportation || p
        == RingPower::Levitation
}

impl RingPower {
    /// The ring's name.
    pub fn name(&self) -> (s: &'static str)
        ensures
            s@ == ring_name(*self),
    {
        match self {
            RingPower::Strength => "ring of strength",
            RingPower::Dexterity => "ring of dexterity",
            RingPower::Constitution => "ring of constitution",
            RingPower::Intelligence => "ring of intelligence",
            RingPower::Wisdom => "ring of wisdom",
            RingPower::Charisma => "ring of charisma",
            RingPower::Protection => "ring of protection",
            RingPower::FireResistance => "ring of fire resistance",
            RingPower::ColdResistance => "ring of cold resistance",
            RingPower::PoisonResistance => "ring of poison resistance",
            RingPower::Speed => "ring of speed",
            RingPower::Levitation => "ring of levitation",
            RingPower::Teleportation => "ring of teleportation",
            RingPower::TeleportControl => "ring of teleport control",
            RingPower::SeeInvisible => "ring of see invisible",
            RingPower::Infravision => "ring of infravision",
            RingPower::Regeneration => "ring of regeneration",
            RingPower::Invisibility => "ring of invisibility",
            RingPower::FreeAction => "ring of free action",
            RingPower::Stealth => "ring of stealth",
        }
    }

    /// Energy drained each turn.
    pub fn power_drain(&self) -> (d: i32)
        ensures
            d == ring_drain(*self),
    {
        match self {
            RingPower::Strength | RingPower::Dexterity | RingPower::Constitution => 1,
            RingPower::SeeInvisible | RingPower::Infravision => 1,
            RingPower::Protection | RingPower::FireResistance | RingPower::ColdResistance => 2,
            RingPower::Regeneration | RingPower::FreeAction => 2,
            RingPower::Speed => 4,
            RingPower::Invisibility => 5,
            RingPower::Levitation => 3,
            RingPower::Teleportation => 6,
            RingPower::Intelligence | RingPower::Wisdom | RingPower::Charisma => 2,
            RingPower::TeleportControl => 4,
            RingPower::PoisonResistance => 2,
            RingPower::Stealth => 3,
        }
    }

    /// Whether the ring feeds back when over-drained.
    pub fn causes_feedback(&self) -> (r: bool)
        ensures
            r == ring_feeds_back(*self),
    {
        matches!(self, RingPower::Speed | RingPower::Invisibility | RingPower::Teleportation | RingPower::Levitation)
    }
}

/// A ring being worn.
#[derive(Debug, Clone, Copy)]
pub struct WornRing {
    pub power: RingPower,
    pub object_id: u32,
    pub enchantment: i8,
    pub turns_worn: i32,
}

impl WornRing {
    /// A ring just put on.
    pub fn new(power: RingPower, object_id: u32, enchantment: i8) -> (r: Self)
        ensures
            r.power == power && r.object_id == object_id && r.enchantment == enchantment && r.turns_worn == 0,
    {
        WornRing { power, object_id, enchantment, turns_worn: 0 }
    }
}

/// A hand that wears a ring.
#[derive(Debug, Clone, Copy, PartialEq, Eq, Structural)]
pub enum RingHand {
    Left,
    Right,
}

/// The rings worn, at most one on each hand.
#[derive(Debug, Clone)]
pub struct RingWear {
    pub left_hand: Option<WornRing>,
    pub right_hand: Option<WornRing>,
}

/// The rings worn: the left hand's first.
pub open spec fn worn(w: RingWear) -> Seq<WornRing> {
    (match w.left_hand {
        Some(r) => seq![r],
        None => Seq::empty(),
    }) + (match w.right_hand {
        Some(r) => seq![r],
        None => Seq::empty(),
    })
}

/// The ring on hand `h`.
pub open spec fn on_hand(w: RingWear, h: RingHand) -> Option<WornRing> {
    match h {
        RingHand::Left => w.left_hand,
        RingHand::Right => w.right_hand,
    }
}

/// `w` with hand `h` holding `r`.
pub open spec fn with_hand(w: RingWear, h: RingHand, r: Option<WornRing>) -> RingWear {
    match h {
        RingHand::Left => RingWear { left_hand: r, ..w },
        RingHand::Right => RingWear { right_hand: r, ..w },
    }
}

/// The message for a hand that already wears a ring.
pub open spec fn hand_taken_message(h: RingHand) -> Seq<char> {
    match h {
        RingHand::Left => "You already wear a ring on your left hand."@,
        RingHand::Right => "You already wear a ring on your right hand."@,
    }
}

impl Default for RingWear {
    /// No rings.
    fn default() -> (w: Self)
        ensures
            w.left_hand is None && w.right_hand is None,
    {
        RingWear::new()
    }
}

impl RingWear {
    /// No rings.
    pub fn new() -> (w: Self)
        ensures
            w.left_hand is None && w.right_hand is None,
    {
        RingWear { left_hand: None, right_hand: None }
    }

    /// Put a ring on a hand; refused if the hand already wears one.
    pub fn wear_ring(&mut self, ring: WornRing, hand: RingHand) -> (r: Result<(), String>)
        ensures
            on_hand(*old(self), hand) is None ==> r is Ok && *final(self) == with_hand(*old(self), hand, Some(ring)),
            on_hand(*old(self), hand) is Some ==> *final(self) == *old(self) && (r matches Err(e) && e@
                == hand_taken_message(hand)),
    {
        match hand {
            RingHand::Left => {
                if self.left_hand.is_some() {
                    Err(String::from_str("You already wear a ring on your left hand."))
                } else {
                    self.left_hand = Some(ring);
                    Ok(())
                }
            },
            RingHand::Right => {
                if self.right_hand.is_some() {
                    Err(String::from_str("You already wear a ring on your right hand."))
                } else {
                    self.right_hand = Some(ring);
                    Ok(())
                }
            },
        }
    }

    /// Take the ring off a hand, if it wears one.
    pub fn remove_ring(&mut self, hand: RingHand) -> (r: Option<WornRing>)
        ensures
            r == on_hand(*old(self), hand),
            *final(self) == with_hand(*old(self), hand, None),
    {
        match hand {
            RingHand::Left => self.left_hand.take(),
            RingHand::Right => self.right_hand.take(),
        }
    }

    /// The rings worn, the left hand's first.
    pub fn get_worn_rings(&self) -> (v: Vec<&WornRing>)
        ensures
            v@.len() == worn(*self).len(),
            forall|i: int| 0 <= i < v@.len() ==> *v@[i] == worn(*self)[i],
    {
        let mut rings: Vec<&WornRing> = Vec::new();
        if let Some(ring) = &self.left_hand {
            rings.push(ring);
        }
        if let Some(ring) = &self.right_hand {
            rings.push(ring);
        }
        rings
    }

    /// Whether a worn ring has power `power`.
    pub fn has_ring_power(&self, power: RingPower) -> (r: bool)
        ensures
            r == exists|i: int| 0 <= i < worn(*self).len() && (#[trigger] worn(*self)[i]).power == power,
    {
        let l = match &self.left_hand {
            Some(ring) => ring.power == power,
            None => false,
        };
        let rt = match &self.right_hand {
            Some(ring) => ring.power == power,
            None => false,
        };
        proof {
            let w = worn(*self);
            if l {
                assert(w[0].power == power);
            }
            if rt {
                assert(w[w.len() - 1].power == power);
            }
        }
        l || rt
    }
}

/// Taking off the ring just put on an empty hand gives that ring back and
/// leaves the hands as they were.
pub proof fn lemma_wear_then_remove(w: RingWear, ring: WornRing, h: RingHand)
    requires
        on_hand(w, h) is None,
    ensures
        on_hand(with_hand(w, h, Some(ring)), h) == Some(ring),
        with_hand(with_hand(w, h, Some(ring)), h, None) == w,
{
}

/// The attribute a ring of power `p` raises, if any.
pub open spec fn ring_attribute(p: RingPower) -> Option<Attribute> {
    match p {
        RingPower::Strength => Some(Attribute::Strength),
        RingPower::Dexterity => Some(Attribute::Dexterity),
        RingPower::Constitution => Some(Attribute::Constitution),
        RingPower::Intelligence => Some(Attribute::Intelligence),
        RingPower::Wisdom => Some(Attribute::Wisdom),
        RingPower::Charisma => Some(Attribute::Charisma),
        _ => None,
    }
}

/// The property a ring of power `p` makes intrinsic, if any.
pub open spec fn ring_property(p: RingPower) -> Option<Property> {
    match p {
        RingPower::FireResistance => Some(Property::FireResistance),
        RingPower::ColdResistance => Some(Property::ColdResistance),
        RingPower::PoisonResistance => Some(Property::PoisonResistance),
        RingPower::Levitation => Some(Property::Levitation),
        RingPower::Teleportation => Some(Property::Teleportation),
        RingPower::TeleportControl => Some(Property::TeleportControl),
        RingPower::SeeInvisible => Some(Property::SeeInvisible),
        RingPower::Infravision => Some(Property::Infravision),
        RingPower::Regeneration => Some(Property::Regeneration),
        RingPower::Invisibility => Some(Property::Invisibility),
        RingPower::FreeAction => Some(Property::FreeAction),
        RingPower::Stealth => Some(Property::Stealth),
        _ => None,
    }
}

/// What rings change of the hero: attributes, armor class, movement points
/// and which properties are intrinsic.
pub open spec fn ring_view(p: You) -> (Attributes, i8, i16, Seq<bool>) {
    (p.attr_current, p.armor_class, p.movement_points, p.properties.intrinsic@)
}

/// One ring of power `p` acting on `v`: an attribute one higher up to 25,
/// armor class one better down to -10, three more movement points up to 50, or
/// a property made intrinsic.
pub open spec fn ring_step(v: (Attributes, i8, i16, Seq<bool>), p: RingPower) -> (Attributes, i8, i16, Seq<bool>) {
    match ring_attribute(p) {
        Some(a) => (v.0.with(a, (if v.0.value(a) + 1 < 25 { v.0.value(a) + 1 } else { 25 }) as i8), v.1, v.2, v.3),
        None => if p == RingPower::Protection {
            (v.0, (if v.1 - 1 > -10 { v.1 - 1 } else { -10 }) as i8, v.2, v.3)
        } else if p == RingPower::Speed {
            (v.0, v.1, (if v.2 + 3 < 50 { v.2 + 3 } else { 50 }) as i16, v.3)
        } else {
            match ring_property(p) {
                Some(q) => (v.0, v.1, v.2, v.3.update(prop_index(q), true)),
                None => v,
            }
        },
    }
}

/// The rings `ws` acting on `v` in order.
pub open spec fn rings_applied(v: (Attributes, i8, i16, Seq<bool>), ws: Seq<WornRing>) -> (
    Attributes,
    i8,
    i16,
    Seq<bool>,
)
    decreases ws.len(),
{
    if ws.len() == 0 {
        v
    } else {
        rings_applied(ring_step(v, ws[0].power), ws.drop_first())
    }
}

/// A ring of power `p` acting on `v` does no arithmetic that overflows.
pub open spec fn ring_safe(v: (Attributes, i8, i16, Seq<bool>), p: RingPower) -> bool {
    match ring_attribute(p) {
        Some(a) => v.0.value(a) < 127,
        None => (p == RingPower::Protection ==> v.1 > -128) && (p == RingPower::Speed ==> v.2 <= 32764),
    }
}

/// One ring acting on the hero.
fn apply_one_ring(player: &mut You, power: RingPower)
    requires
        old(player).wf(),
        ring_safe(ring_view(*old(player)), power),
    ensures
        final(player).wf(),
        ring_view(*final(player)) == ring_step(ring_view(*old(player)), power),
        *final(player) == (You {
            attr_current: final(player).attr_current,
            armor_class: final(player).armor_class,
            movement_points: final(player).movement_points,
            properties: final(player).properties,
            ..*old(player)
        }),
        final(player).properties.timeout@ == old(player).properties.timeout@,
{
    let attr: Option<Attribute> = match power {
        RingPower::Strength => Some(Attribute::Strength),
        RingPower::Dexterity => Some(Attribute::Dexterity),
        RingPower::Constitution => Some(Attribute::Constitution),
        RingPower::Intelligence => Some(Attribute::Intelligence),
        RingPower::Wisdom => Some(Attribute::Wisdom),
        RingPower::Charisma => Some(Attribute::Charisma),
        _ => None,
    };
    let prop: Option<Property> = match power {
        RingPower::FireResistance => Some(Property::FireResistance),
        RingPower::ColdResistance => Some(Property::ColdResistance),
        RingPower::PoisonResistance => Some(Property::PoisonResistance),
        RingPower::Levitation => Some(Property::Levitation),
        RingPower::Teleportation => Some(Property::Teleportation),
        RingPower::TeleportControl => Some(Property::TeleportControl),
        RingPower::SeeInvisible => Some(Property::SeeInvisible),
        RingPower::Infravision => Some(Property::Infravision),
        RingPower::Regeneration => Some(Property::Regeneration),
        RingPower::Invisibility => Some(Property::Invisibility),
        RingPower::FreeAction => Some(Property::FreeAction),
        RingPower::Stealth => Some(Property::Stealth),
        _ => None,
    };
    match attr {
        Some(a) => {
            let current = player.attr_current.get(a);
            let raised: i8 = if current + 1 < 25 { current + 1 } else { 25 };
            player.attr_current.set(a, raised);
        },
        None => {
            if power == RingPower::Protection {
                let ac = player.armor_class - 1;
                player.armor_class = if ac > -10 { ac } else { -10 };
            } else if power == RingPower::Speed {
                let mv = player.movement_points + 3;
                player.movement_points = if mv < 50 { mv } else { 50 };
            } else {
                match prop {
                    Some(q) => player.properties.grant_intrinsic(q),
                    None => {},
                }
            }
        },
    }
}

/// The rings worn act on the hero, the left hand's first: ability rings raise
/// their attribute by one up to 25, protection betters armor class by one down
/// to -10, speed adds three movement points up to 50, and the others make their
/// property intrinsic.
pub fn apply_ring_effects(player: &mut You, rings: &RingWear)
    requires
        old(player).wf(),
        forall|i: int| 0 <= i < worn(*rings).len() ==> ring_safe(ring_view(*old(player)), (
            #[trigger] worn(*rings)[i]).power),
    ensures
        final(player).wf(),
        ring_view(*final(player)) == rings_applied(ring_view(*old(player)), worn(*rings)),
        *final(player) == (You {
            attr_current: final(player).attr_current,
            armor_class: final(player).armor_class,
            movement_points: final(player).movement_points,
            properties: final(player).properties,
            ..*old(player)
        }),
        final(player).properties.timeout@ == old(player).properties.timeout@,
{
    let ghost w = worn(*rings);
    let ghost v0 = ring_view(*player);
    if let Some(ring) = &rings.left_hand {
        assert(w[0] == *ring);
        apply_one_ring(player, ring.power);
    }
    let ghost v1 = ring_view(*player);
    if let Some(ring) = &rings.right_hand {
        assert(w[w.len() - 1] == *ring);
        proof {
            lemma_step_keeps_safe(v0, w[0].power, ring.power);
            if rings.left_hand is None {
                assert(v1 == v0);
            }
        }
        apply_one_ring(player, ring.power);
    }
    proof {
        reveal_with_fuel(rings_applied, 3);
        if w.len() == 2 {
            assert(w.drop_first() =~= seq![w[1]]);
            assert(w.drop_first().drop_first() =~= Seq::<WornRing>::empty());
        } else if w.len() == 1 {
            assert(w.drop_first() =~= Seq::<WornRing>::empty());
        }
    }
}

/// A ring acting cannot make the next ring's arithmetic overflow.
proof fn lemma_step_keeps_safe(v: (Attributes, i8, i16, Seq<bool>), p: RingPower, q: RingPower)
    requires
        ring_safe(v, q),
    ensures
        ring_safe(ring_step(v, p), q),
{
}

/// Energy the rings `ws` drain each turn: each ring's own drain plus its
/// enchantment when positive.
pub open spec fn drain_total(ws: Seq<WornRing>) -> int
    decreases ws.len(),
{
    if ws.len() == 0 {
        0
    } else {
        ring_drain(ws[0].power) + (if ws[0].enchantment > 0 { ws[0].enchantment as int } else { 0 })
            + drain_total(ws.drop_first())
    }
}

/// The energy the worn rings drain each turn.
pub fn calculate_ring_drain(rings: &RingWear) -> (d: i32)
    ensures
        d == drain_total(worn(*rings)),
{
    let ghost w = worn(*rings);
    let mut total: i32 = 0;
    if let Some(ring) = &rings.left_hand {
        let e: i32 = if ring.enchantment > 0 { ring.enchantment as i32 } else { 0 };
        total = total + ring.power.power_drain() + e;
    }
    if let Some(ring) = &rings.right_hand {
        let e: i32 = if ring.enchantment > 0 { ring.enchantment as i32 } else { 0 };
        total = total + ring.power.power_drain() + e;
    }
    proof {
        reveal_with_fuel(drain_total, 3);
        if w.len() == 2 {
            assert(w.drop_first() =~= seq![w[1]]);
            assert(w.drop_first().drop_first() =~= Seq::<WornRing>::empty());
        } else if w.len() == 1 {
            assert(w.drop_first() =~= Seq::<WornRing>::empty());
        }
    }
    total
}

/// The first of the rings `ws` that feeds back, if any.
pub open spec fn first_feedback(ws: Seq<WornRing>) -> Option<RingPower>
    decreases ws.len(),
{
    if ws.len() == 0 {
        None
    } else if ring_feeds_back(ws[0].power) {
        Some(ws[0].power)
    } else {
        first_feedback(ws.drop_first())
    }
}

/// The chance in percent that rings draining `drain` feed back on a hero with
/// `energy`: a fifth of the shortfall, at most 50.
pub open spec fn feedback_chance(drain: int, energy: int) -> int {
    let deficit = if drain - energy > 0 { drain - energy } else { 0 };
    if deficit / 5 < 50 { deficit / 5 } else { 50 }
}

/// Over-drained rings may feed back: with a chance growing with the shortfall
/// of energy, the first worn ring that feeds back overheats.
pub fn check_power_feedback(player: &You, rings: &RingWear, rng: &mut GameRng) -> (r: Option<String>)
    requires
        drain_total(worn(*rings)) - player.energy >= i32::MIN,
        drain_total(worn(*rings)) - player.energy <= i32::MAX,
    ensures
        final(rng)@ == step(old(rng)@),
        rn2_at(old(rng)@, 100) < feedback_chance(drain_total(worn(*rings)), player.energy as int) ==> match first_feedback(worn(*rings)) {
            Some(p) => (r matches Some(s) && s@ == "Your "@ + ring_name(p) + " overheats!"@),
            None => r is None,
        },
        !(rn2_at(old(rng)@, 100) < feedback_chance(drain_total(worn(*rings)), player.energy as int)) ==> r is None,
{
    let drain = calculate_ring_drain(rings);
    let d = drain - player.energy;
    let energy_deficit: i32 = if d > 0 { d } else { 0 };
    let fifth = energy_deficit / 5;
    let feedback_chance: i32 = if fifth < 50 { fifth } else { 50 };
    if rng.percent(feedback_chance as u32) {
        let ghost w = worn(*rings);
        proof {
            reveal_with_fuel(first_feedback, 3);
            if w.len() == 2 {
                assert(w.drop_first() =~= seq![w[1]]);
                assert(w.drop_first().drop_first() =~= Seq::<WornRing>::empty());
            } else if w.len() == 1 {
                assert(w.drop_first() =~= Seq::<WornRing>::empty());
            }
        }
        if let Some(ring) = &rings.left_hand {
            if ring.power.causes_feedback() {
                return Some(overheat_message(ring.power));
            }
        }
        if let Some(ring) = &rings.right_hand {
            if ring.power.causes_feedback() {
                return Some(overheat_message(ring.power));
            }
        }
    }
    None
}

/// `Your <ring> overheats!`
fn overheat_message(p: RingPower) -> (s: String)
    ensures
        s@ == "Your "@ + ring_name(p) + " overheats!"@,
{
    let mut s = String::from_str("Your ");
    s.append(p.name());
    s.append(" overheats!");
    s
}

/// Every worn ring drains at least one point of energy a turn.
pub proof fn lemma_drain_at_least_one_per_ring(ws: Seq<WornRing>)
    ensures
        drain_total(ws) >= ws.len(),
    decreases ws.len(),
{
    if ws.len() > 0 {
        lemma_drain_at_least_one_per_ring(ws.drop_first());
    }
}

} // verus!
