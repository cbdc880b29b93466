use nh_core::magic::potions::{
    apply_potion_effect, check_potion_interaction, determine_potion_potency, get_effect_message,
    ActivePotionEffect, PotionEffectTracker, PotionEffectType, PotionPotency,
};
use nh_core::player::{Attribute, Property, You};

#[test]
fn test_active_potion_effect_magnitude() {
    let effect = ActivePotionEffect::new(PotionEffectType::Healing, 100, 10, PotionPotency::Powerful);
    assert_eq!(effect.magnitude, 20);
}

#[test]
fn test_potion_effect_tracker_add() {
    let mut tracker = PotionEffectTracker::new();
    let effect = ActivePotionEffect::new(PotionEffectType::Speed, 50, 5, PotionPotency::Normal);
    tracker.add_effect(effect);
    assert!(tracker.has_effect(PotionEffectType::Speed));
}

#[test]
fn test_potion_effect_tracker_tick() {
    let mut tracker = PotionEffectTracker::new();
    let effect = ActivePotionEffect::new(PotionEffectType::Speed, 3, 5, PotionPotency::Normal);
    tracker.add_effect(effect);
    tracker.tick_effects();
    assert!(tracker.has_effect(PotionEffectType::Speed));
    tracker.tick_effects();
    tracker.tick_effects();
    assert!(!tracker.has_effect(PotionEffectType::Speed));
}

#[test]
fn test_determine_potion_potency_blessed() {
    assert_eq!(determine_potion_potency(true, false, 0), PotionPotency::Powerful);
}

#[test]
fn test_determine_potion_potency_cursed() {
    assert_eq!(determine_potion_potency(false, true, 0), PotionPotency::Diluted);
}

#[test]
fn test_determine_potion_potency_aged() {
    assert_eq!(determine_potion_potency(false, false, 6000), PotionPotency::Diluted);
}

#[test]
fn test_check_potion_interaction_conflict() {
    let existing = vec![ActivePotionEffect::new(PotionEffectType::Poison, 50, 5, PotionPotency::Normal)];
    let interaction = check_potion_interaction(PotionEffectType::Strength, &existing);
    assert!(interaction.is_some());
}

#[test]
fn test_check_potion_interaction_no_conflict() {
    let existing = vec![ActivePotionEffect::new(PotionEffectType::Speed, 50, 5, PotionPotency::Normal)];
    let interaction = check_potion_interaction(PotionEffectType::Healing, &existing);
    assert!(interaction.is_none());
}

#[test]
fn test_apply_potion_healing() {
    let mut player = You::default();
    player.hp = 50;
    player.hp_max = 100;
    let effect = ActivePotionEffect::new(PotionEffectType::Healing, 100, 30, PotionPotency::Normal);
    apply_potion_effect(&mut player, &effect);
    assert_eq!(player.hp, 80);
}

#[test]
fn test_get_effect_message() {
    let msg = get_effect_message(PotionEffectType::Speed, PotionPotency::Powerful);
    assert!(msg.contains("powerfully"));
}

#[test]
fn test_potion_effect_magnitude_scaling() {
    let diluted = ActivePotionEffect::new(PotionEffectType::Healing, 100, 10, PotionPotency::Diluted);
    let powerful = ActivePotionEffect::new(PotionEffectType::Healing, 100, 10, PotionPotency::Powerful);
    assert_eq!(diluted.magnitude, 5);
    assert_eq!(powerful.magnitude, 20);
}

#[test]
fn test_count_effect() {
    let mut tracker = PotionEffectTracker::new();
    tracker.add_effect(ActivePotionEffect::new(PotionEffectType::Speed, 50, 5, PotionPotency::Normal));
    tracker.add_effect(ActivePotionEffect::new(PotionEffectType::Speed, 30, 3, PotionPotency::Normal));
    assert_eq!(tracker.count_effect(PotionEffectType::Speed), 2);
}

#[test]
fn test_scaling_rounds_toward_zero() {
    assert_eq!(ActivePotionEffect::new(PotionEffectType::Poison, 1, 7, PotionPotency::Potent).magnitude, 10);
    assert_eq!(ActivePotionEffect::new(PotionEffectType::Poison, 1, -7, PotionPotency::Potent).magnitude, -10);
    assert_eq!(ActivePotionEffect::new(PotionEffectType::Poison, 1, -3, PotionPotency::Diluted).magnitude, -1);
}

#[test]
fn test_duration_bonus() {
    assert_eq!(PotionPotency::Diluted.duration_bonus(), -50);
    assert_eq!(PotionPotency::Powerful.duration_bonus(), 250);
}

#[test]
fn test_potency_thresholds() {
    assert_eq!(determine_potion_potency(true, false, 999), PotionPotency::Powerful);
    assert_eq!(determine_potion_potency(true, false, 1000), PotionPotency::Potent);
    assert_eq!(determine_potion_potency(false, false, 5000), PotionPotency::Normal);
    assert_eq!(determine_potion_potency(true, true, 0), PotionPotency::Diluted);
}

#[test]
fn test_first_magnitude_and_tick_order() {
    let mut tracker = PotionEffectTracker::new();
    tracker.add_effect(ActivePotionEffect::new(PotionEffectType::Speed, 1, 4, PotionPotency::Normal));
    tracker.add_effect(ActivePotionEffect::new(PotionEffectType::Gain, 5, 2, PotionPotency::Normal));
    tracker.add_effect(ActivePotionEffect::new(PotionEffectType::Speed, 4, 9, PotionPotency::Normal));
    assert_eq!(tracker.get_effect_magnitude(PotionEffectType::Speed), Some(4));
    assert_eq!(tracker.get_effect_magnitude(PotionEffectType::Poison), None);
    tracker.tick_effects();
    assert_eq!(tracker.active_effects.len(), 2);
    assert_eq!(tracker.active_effects[0].duration, 4);
    assert_eq!(tracker.get_effect_magnitude(PotionEffectType::Speed), Some(9));
}

#[test]
fn test_interaction_first_clash_wins() {
    let existing = vec![
        ActivePotionEffect::new(PotionEffectType::Levitation, 5, 1, PotionPotency::Normal),
        ActivePotionEffect::new(PotionEffectType::Poison, 5, 1, PotionPotency::Normal),
    ];
    assert_eq!(
        check_potion_interaction(PotionEffectType::Invisibility, &existing),
        Some("The potions mix into a shimmer.".to_string())
    );
    assert_eq!(
        check_potion_interaction(PotionEffectType::Speed, &existing),
        Some("The speed potion turns sour!".to_string())
    );
}

#[test]
fn test_apply_effects_caps_and_grants() {
    let mut player = You::default();
    player.attr_current.set(Attribute::Wisdom, 25);
    apply_potion_effect(&mut player, &ActivePotionEffect::new(PotionEffectType::Wisdom, 5, 1, PotionPotency::Normal));
    assert_eq!(player.attr_current.get(Attribute::Wisdom), 25);
    player.movement_points = 48;
    apply_potion_effect(&mut player, &ActivePotionEffect::new(PotionEffectType::Speed, 5, 1, PotionPotency::Normal));
    assert_eq!(player.movement_points, 50);
    apply_potion_effect(&mut player, &ActivePotionEffect::new(PotionEffectType::Levitation, 5, 1, PotionPotency::Normal));
    assert!(player.properties.has_intrinsic(Property::Levitation));
    player.hp = 1;
    apply_potion_effect(&mut player, &ActivePotionEffect::new(PotionEffectType::ExtraHealing, 5, 1, PotionPotency::Normal));
    assert_eq!(player.hp, player.hp_max);
}

#[test]
fn test_normal_potency_message_keeps_space() {
    assert_eq!(get_effect_message(PotionEffectType::Healing, PotionPotency::Normal), "You feel  better.");
    assert_eq!(get_effect_message(PotionEffectType::Gain, PotionPotency::Potent), "You quaff the potion.");
}
