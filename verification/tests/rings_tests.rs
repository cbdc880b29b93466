use nh_core::magic::rings::{
    apply_ring_effects, calculate_ring_drain, check_power_feedback, RingHand, RingPower, RingWear, WornRing,
};
use nh_core::player::{Attribute, Property, You};
use nh_core::rng::GameRng;

#[test]
fn test_ring_power_drain() {
    assert_eq!(RingPower::Strength.power_drain(), 1);
    assert_eq!(RingPower::Speed.power_drain(), 4);
    assert_eq!(RingPower::Invisibility.power_drain(), 5);
}

#[test]
fn test_ring_wear_left_hand() {
    let mut wear = RingWear::new();
    let ring = WornRing::new(RingPower::Strength, 1, 0);
    let result = wear.wear_ring(ring, RingHand::Left);
    assert!(result.is_ok());
    assert!(wear.left_hand.is_some());
}

#[test]
fn test_ring_wear_both_hands() {
    let mut wear = RingWear::new();
    let ring1 = WornRing::new(RingPower::Strength, 1, 0);
    let ring2 = WornRing::new(RingPower::Dexterity, 2, 0);
    wear.wear_ring(ring1, RingHand::Left).unwrap();
    wear.wear_ring(ring2, RingHand::Right).unwrap();
    assert!(wear.left_hand.is_some());
    assert!(wear.right_hand.is_some());
}

#[test]
fn test_ring_wear_duplicate_hand() {
    let mut wear = RingWear::new();
    let ring1 = WornRing::new(RingPower::Strength, 1, 0);
    let ring2 = WornRing::new(RingPower::Dexterity, 2, 0);
    wear.wear_ring(ring1, RingHand::Left).unwrap();
    let result = wear.wear_ring(ring2, RingHand::Left);
    assert!(result.is_err());
}

#[test]
fn test_remove_ring() {
    let mut wear = RingWear::new();
    let ring = WornRing::new(RingPower::Strength, 1, 0);
    wear.wear_ring(ring, RingHand::Left).unwrap();
    let removed = wear.remove_ring(RingHand::Left);
    assert!(removed.is_some());
    assert!(wear.left_hand.is_none());
}

#[test]
fn test_has_ring_power() {
    let mut wear = RingWear::new();
    let ring = WornRing::new(RingPower::FireResistance, 1, 0);
    wear.wear_ring(ring, RingHand::Left).unwrap();
    assert!(wear.has_ring_power(RingPower::FireResistance));
    assert!(!wear.has_ring_power(RingPower::Speed));
}

#[test]
fn test_get_worn_rings() {
    let mut wear = RingWear::new();
    let ring1 = WornRing::new(RingPower::Strength, 1, 0);
    let ring2 = WornRing::new(RingPower::Dexterity, 2, 0);
    wear.wear_ring(ring1, RingHand::Left).unwrap();
    wear.wear_ring(ring2, RingHand::Right).unwrap();
    let rings = wear.get_worn_rings();
    assert_eq!(rings.len(), 2);
}

#[test]
fn test_calculate_ring_drain() {
    let mut wear = RingWear::new();
    let ring = WornRing::new(RingPower::Speed, 1, 2);
    wear.wear_ring(ring, RingHand::Left).unwrap();
    assert_eq!(calculate_ring_drain(&wear), 6);
}

#[test]
fn test_calculate_ring_drain_multiple() {
    let mut wear = RingWear::new();
    let ring1 = WornRing::new(RingPower::Strength, 1, 0);
    let ring2 = WornRing::new(RingPower::Speed, 2, 0);
    wear.wear_ring(ring1, RingHand::Left).unwrap();
    wear.wear_ring(ring2, RingHand::Right).unwrap();
    assert_eq!(calculate_ring_drain(&wear), 5);
}

#[test]
fn test_apply_ring_effects_strength() {
    let mut player = You::default();
    let initial_str = player.attr_current.get(Attribute::Strength);
    let mut wear = RingWear::new();
    let ring = WornRing::new(RingPower::Strength, 1, 0);
    wear.wear_ring(ring, RingHand::Left).unwrap();
    apply_ring_effects(&mut player, &wear);
    let new_str = player.attr_current.get(Attribute::Strength);
    assert!(new_str > initial_str);
}

#[test]
fn test_ring_power_name() {
    assert_eq!(RingPower::Strength.name(), "ring of strength");
    assert_eq!(RingPower::Speed.name(), "ring of speed");
}

#[test]
fn test_ring_causes_feedback() {
    assert!(!RingPower::Strength.causes_feedback());
    assert!(RingPower::Speed.causes_feedback());
    assert!(RingPower::Invisibility.causes_feedback());
}

#[test]
fn test_wear_then_remove_restores_hands() {
    let mut wear = RingWear::new();
    let ring = WornRing::new(RingPower::Stealth, 9, -1);
    wear.wear_ring(ring, RingHand::Right).unwrap();
    let removed = wear.remove_ring(RingHand::Right).unwrap();
    assert_eq!(removed.object_id, 9);
    assert!(wear.left_hand.is_none() && wear.right_hand.is_none());
}

#[test]
fn test_duplicate_hand_message() {
    let mut wear = RingWear::new();
    wear.wear_ring(WornRing::new(RingPower::Speed, 1, 0), RingHand::Right).unwrap();
    let err = wear.wear_ring(WornRing::new(RingPower::Speed, 2, 0), RingHand::Right).unwrap_err();
    assert_eq!(err, "You already wear a ring on your right hand.");
    assert_eq!(wear.right_hand.unwrap().object_id, 1);
}

#[test]
fn test_apply_rings_caps_and_grants() {
    let mut player = You::default();
    player.attr_current.set(Attribute::Dexterity, 25);
    player.armor_class = -10;
    player.movement_points = 49;
    let mut wear = RingWear::new();
    wear.wear_ring(WornRing::new(RingPower::Dexterity, 1, 0), RingHand::Left).unwrap();
    wear.wear_ring(WornRing::new(RingPower::FreeAction, 2, 0), RingHand::Right).unwrap();
    apply_ring_effects(&mut player, &wear);
    assert_eq!(player.attr_current.get(Attribute::Dexterity), 25);
    assert!(player.properties.has_intrinsic(Property::FreeAction));
    let mut w2 = RingWear::new();
    w2.wear_ring(WornRing::new(RingPower::Speed, 1, 0), RingHand::Left).unwrap();
    w2.wear_ring(WornRing::new(RingPower::Protection, 2, 0), RingHand::Right).unwrap();
    apply_ring_effects(&mut player, &w2);
    assert_eq!(player.movement_points, 50);
    assert_eq!(player.armor_class, -10);
}

#[test]
fn test_drain_ignores_negative_enchantment() {
    let mut wear = RingWear::new();
    wear.wear_ring(WornRing::new(RingPower::Teleportation, 1, -3), RingHand::Left).unwrap();
    assert_eq!(calculate_ring_drain(&wear), 6);
}

#[test]
fn test_no_feedback_with_enough_energy() {
    let player = You::default();
    let mut wear = RingWear::new();
    wear.wear_ring(WornRing::new(RingPower::Speed, 1, 0), RingHand::Left).unwrap();
    let mut rng = GameRng::new(1);
    assert!(check_power_feedback(&player, &wear, &mut rng).is_none());
}

#[test]
fn test_feedback_when_starved() {
    let mut player = You::default();
    player.energy = -10000;
    let mut wear = RingWear::new();
    wear.wear_ring(WornRing::new(RingPower::Strength, 1, 0), RingHand::Left).unwrap();
    wear.wear_ring(WornRing::new(RingPower::Invisibility, 2, 0), RingHand::Right).unwrap();
    let mut hits = 0;
    for seed in 0..20u64 {
        let mut rng = GameRng::new(seed);
        if let Some(msg) = check_power_feedback(&player, &wear, &mut rng) {
            assert_eq!(msg, "Your ring of invisibility overheats!");
            hits += 1;
        }
    }
    assert!(hits > 0);
}
