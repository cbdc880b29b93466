use nh_core::magic::cursed_items::{
    apply_cursed_effect, calculate_curse_magnitude, check_fumble, cursed_effect_message,
    determine_cursed_effects, CursedConsequence, CursedEffect, CursedItemTracker,
};
use nh_core::object::{BucStatus, Object, ObjectClass, ObjectId};
use nh_core::player::{Attribute, You};
use nh_core::rng::GameRng;

#[test]
fn test_cursed_effect_severity() {
    assert_eq!(CursedEffect::ForcedEquip.severity(), 5);
    assert_eq!(CursedEffect::StatsLower.severity(), 4);
    assert_eq!(CursedEffect::Fumbling.severity(), 3);
    assert_eq!(CursedEffect::WeaponPenalty.severity(), 2);
}

#[test]
fn test_cursed_consequence_creation() {
    let consequence = CursedConsequence::new(CursedEffect::Fumbling, 42);
    assert_eq!(consequence.object_id, 42);
    assert_eq!(consequence.effect, CursedEffect::Fumbling);
    assert_eq!(consequence.magnitude, 1);
}

#[test]
fn test_cursed_consequence_with_stat() {
    let consequence =
        CursedConsequence::new(CursedEffect::StatsLower, 42).with_stat(Attribute::Strength, 2);
    assert_eq!(consequence.affected_attribute, Some(Attribute::Strength));
    assert_eq!(consequence.magnitude, 2);
}

#[test]
fn test_cursed_item_tracker_add() {
    let mut tracker = CursedItemTracker::new();
    let consequence = CursedConsequence::new(CursedEffect::Fumbling, 1);
    tracker.add_curse(consequence);
    assert_eq!(tracker.active_curses.len(), 1);
}

#[test]
fn test_cursed_item_tracker_remove() {
    let mut tracker = CursedItemTracker::new();
    tracker.add_curse(CursedConsequence::new(CursedEffect::Fumbling, 1));
    tracker.add_curse(CursedConsequence::new(CursedEffect::ArmorPenalty, 2));
    tracker.remove_item_curses(1);
    assert_eq!(tracker.active_curses.len(), 1);
    assert!(tracker.has_curse_type(2, CursedEffect::ArmorPenalty));
}

#[test]
fn test_cursed_item_tracker_has_curse_type() {
    let mut tracker = CursedItemTracker::new();
    tracker.add_curse(CursedConsequence::new(CursedEffect::Fumbling, 1));
    assert!(tracker.has_curse_type(1, CursedEffect::Fumbling));
    assert!(!tracker.has_curse_type(1, CursedEffect::WeaponPenalty));
    assert!(!tracker.has_curse_type(2, CursedEffect::Fumbling));
}

#[test]
fn test_cursed_item_tracker_is_stuck() {
    let mut tracker = CursedItemTracker::new();
    tracker.add_curse(CursedConsequence::new(CursedEffect::ForcedEquip, 1));
    assert!(tracker.is_item_stuck(1));
    assert!(!tracker.is_item_stuck(2));
}

#[test]
fn test_total_fumble_chance() {
    let mut tracker = CursedItemTracker::new();
    tracker.add_curse(CursedConsequence::new(CursedEffect::Fumbling, 1).with_magnitude(20));
    tracker.add_curse(CursedConsequence::new(CursedEffect::Fumbling, 2).with_magnitude(15));
    tracker.add_curse(CursedConsequence::new(CursedEffect::ArmorPenalty, 3).with_magnitude(2));
    assert_eq!(tracker.total_fumble_chance(), 35);
}

#[test]
fn test_total_armor_penalty() {
    let mut tracker = CursedItemTracker::new();
    tracker.add_curse(CursedConsequence::new(CursedEffect::ArmorPenalty, 1).with_magnitude(1));
    tracker.add_curse(CursedConsequence::new(CursedEffect::ArmorPenalty, 2).with_magnitude(2));
    assert_eq!(tracker.total_armor_penalty(), 3);
}

#[test]
fn test_total_stat_reduction() {
    let mut tracker = CursedItemTracker::new();
    tracker.add_curse(
        CursedConsequence::new(CursedEffect::StatsLower, 1)
            .with_stat(Attribute::Strength, 1)
            .with_magnitude(1),
    );
    tracker.add_curse(
        CursedConsequence::new(CursedEffect::StatsLower, 2)
            .with_stat(Attribute::Strength, 2)
            .with_magnitude(2),
    );
    tracker.add_curse(
        CursedConsequence::new(CursedEffect::StatsLower, 3)
            .with_stat(Attribute::Dexterity, 1)
            .with_magnitude(1),
    );
    assert_eq!(tracker.total_stat_reduction(Attribute::Strength), 3);
    assert_eq!(tracker.total_stat_reduction(Attribute::Dexterity), 1);
}

#[test]
fn test_total_encumbrance() {
    let mut tracker = CursedItemTracker::new();
    tracker.add_curse(CursedConsequence::new(CursedEffect::Encumbrance, 1));
    tracker.add_curse(CursedConsequence::new(CursedEffect::Encumbrance, 2));
    assert_eq!(tracker.total_encumbrance(), 2);
}

#[test]
fn test_calculate_curse_magnitude_fumbling() {
    let mut obj = Object::default();
    obj.buc = BucStatus::Cursed;
    obj.enchantment = 0;
    let mag = calculate_curse_magnitude(&obj, CursedEffect::Fumbling);
    assert!(mag >= 25);
}

#[test]
fn test_calculate_curse_magnitude_armor_penalty() {
    let mut obj = Object::default();
    obj.buc = BucStatus::Cursed;
    obj.enchantment = 3;
    let mag = calculate_curse_magnitude(&obj, CursedEffect::ArmorPenalty);
    assert!(mag > 0);
}

#[test]
fn test_cursed_effect_message() {
    let consequence = CursedConsequence::new(CursedEffect::Fumbling, 1);
    let msg = cursed_effect_message(&consequence);
    assert!(msg.contains("fumble"));
}

#[test]
fn test_cursed_effect_message_stat() {
    let consequence =
        CursedConsequence::new(CursedEffect::StatsLower, 1).with_stat(Attribute::Strength, 1);
    let msg = cursed_effect_message(&consequence);
    assert!(msg.contains("strength"));
}

#[test]
fn test_check_fumble() {
    let mut rng = GameRng::new(42);
    let fumbled = check_fumble(100, &mut rng);
    assert!(fumbled);
}

#[test]
fn test_check_fumble_never() {
    let mut rng = GameRng::new(42);
    let fumbled = check_fumble(0, &mut rng);
    assert!(!fumbled);
}

#[test]
fn test_get_all_curses() {
    let mut tracker = CursedItemTracker::new();
    tracker.add_curse(CursedConsequence::new(CursedEffect::Fumbling, 1));
    tracker.add_curse(CursedConsequence::new(CursedEffect::ArmorPenalty, 1));
    tracker.add_curse(CursedConsequence::new(CursedEffect::Fumbling, 2));
    let item1_curses = tracker.get_all_curses(1);
    assert_eq!(item1_curses.len(), 2);
}

#[test]
fn test_cursed_consequence_with_magnitude() {
    let consequence = CursedConsequence::new(CursedEffect::WeaponPenalty, 42).with_magnitude(5);
    assert_eq!(consequence.magnitude, 5);
}

#[test]
fn test_curse_magnitudes_exact() {
    let mut obj = Object::new(ObjectId(1), 0, ObjectClass::Weapon);
    obj.enchantment = -4;
    assert_eq!(calculate_curse_magnitude(&obj, CursedEffect::Fumbling), 40);
    assert_eq!(calculate_curse_magnitude(&obj, CursedEffect::WeaponPenalty), -5);
    assert_eq!(calculate_curse_magnitude(&obj, CursedEffect::ArmorPenalty), 3);
    assert_eq!(calculate_curse_magnitude(&obj, CursedEffect::StatsLower), 1);
    obj.enchantment = 5;
    assert_eq!(calculate_curse_magnitude(&obj, CursedEffect::StatsLower), 2);
    assert_eq!(calculate_curse_magnitude(&obj, CursedEffect::Weakness), 20);
}

#[test]
fn test_uncursed_items_have_no_curse_effects() {
    let obj = Object::new(ObjectId(1), 0, ObjectClass::Weapon);
    let mut rng = GameRng::new(5);
    assert!(determine_cursed_effects(&obj, &mut rng).is_empty());
    let mut cursed = Object::new(ObjectId(2), 0, ObjectClass::Armor);
    cursed.buc = BucStatus::Cursed;
    for seed in 0..20 {
        let mut rng = GameRng::new(seed);
        for e in determine_cursed_effects(&cursed, &mut rng) {
            assert!(matches!(
                e,
                CursedEffect::ArmorPenalty
                    | CursedEffect::Encumbrance
                    | CursedEffect::ForcedEquip
                    | CursedEffect::StatsLower
            ));
        }
    }
}

#[test]
fn test_apply_cursed_effects_to_player() {
    let mut player = You::default();
    player.attr_current.set(Attribute::Wisdom, 10);
    player.attr_current.set(Attribute::Dexterity, 10);
    apply_cursed_effect(
        &mut player,
        &CursedConsequence::new(CursedEffect::ArmorPenalty, 1).with_magnitude(2),
    );
    assert_eq!(player.armor_class, 12);
    apply_cursed_effect(
        &mut player,
        &CursedConsequence::new(CursedEffect::Encumbrance, 1).with_magnitude(20),
    );
    assert_eq!(player.movement_points, 1);
    apply_cursed_effect(
        &mut player,
        &CursedConsequence::new(CursedEffect::StatsLower, 1).with_stat(Attribute::Wisdom, 9),
    );
    assert_eq!(player.attr_current.get(Attribute::Wisdom), 3);
    apply_cursed_effect(
        &mut player,
        &CursedConsequence::new(CursedEffect::Clumsiness, 1).with_magnitude(2),
    );
    assert_eq!(player.attr_current.get(Attribute::Dexterity), 8);
    let msg = cursed_effect_message(
        &CursedConsequence::new(CursedEffect::StatsLower, 1).with_stat(Attribute::Wisdom, 1),
    );
    assert_eq!(msg, "You feel weaker! Your wisdom is reduced.");
}
