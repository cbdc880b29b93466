use nh_core::magic::enchantment::{
    can_enchant, damage_enchantment, describe_enchantment, disenchant, enchant_armor,
    enchant_weapon, enchantment_damage_chance, enchantment_to_ac_bonus,
    enchantment_to_damage_bonus, is_over_enchanted, recharge_wand,
};
use nh_core::object::{BucStatus, Object, ObjectClass, ObjectId};
use nh_core::rng::GameRng;

#[test]
fn test_enchant_weapon_success() {
    let mut obj = Object::new(ObjectId(1), 0, ObjectClass::Weapon);
    obj.enchantment = 0;
    let mut rng = GameRng::new(42);
    let result = enchant_weapon(&mut obj, &mut rng);
    assert!(result.success || !result.success);
    assert!(obj.enchantment >= result.old_enchantment);
}

#[test]
fn test_enchant_armor_harder() {
    let mut obj = Object::new(ObjectId(1), 0, ObjectClass::Armor);
    obj.enchantment = 5;
    let mut rng = GameRng::new(42);
    let result = enchant_armor(&mut obj, &mut rng);
    assert!(result.old_enchantment == 5);
}

#[test]
fn test_cannot_enchant_non_enchantable() {
    let mut obj = Object::new(ObjectId(1), 0, ObjectClass::Food);
    let mut rng = GameRng::new(42);
    let result = enchant_weapon(&mut obj, &mut rng);
    assert!(!result.success);
    assert!(result.messages[0].contains("cannot be enchanted"));
}

#[test]
fn test_disenchant() {
    let mut obj = Object::new(ObjectId(1), 0, ObjectClass::Weapon);
    obj.enchantment = 5;
    let result = disenchant(&mut obj);
    assert!(result.success);
    assert_eq!(obj.enchantment, 4);
    assert!(result.messages[0].contains("dims"));
}

#[test]
fn test_enchantment_to_damage_bonus() {
    assert_eq!(enchantment_to_damage_bonus(0), 0);
    assert_eq!(enchantment_to_damage_bonus(5), 5);
    assert_eq!(enchantment_to_damage_bonus(-3), 0);
}

#[test]
fn test_enchantment_to_ac_bonus() {
    assert_eq!(enchantment_to_ac_bonus(3), -3);
    assert_eq!(enchantment_to_ac_bonus(-2), 2);
}

#[test]
fn test_recharge_wand() {
    let mut obj = Object::new(ObjectId(1), 0, ObjectClass::Wand);
    obj.enchantment = 2;
    obj.recharged = 0;
    let result = recharge_wand(&mut obj);
    assert!(result.success);
    assert_eq!(obj.recharged, 1);
    assert!(obj.enchantment > 2);
}

#[test]
fn test_recharge_wand_limit() {
    let mut obj = Object::new(ObjectId(1), 0, ObjectClass::Wand);
    obj.enchantment = 10;
    obj.recharged = 3;
    let result = recharge_wand(&mut obj);
    assert!(!result.success);
    assert_eq!(obj.enchantment, 0);
}

#[test]
fn test_describe_enchantment() {
    let mut obj = Object::new(ObjectId(1), 0, ObjectClass::Weapon);
    obj.enchantment = 3;
    assert_eq!(describe_enchantment(&obj), "+3");
    obj.enchantment = -2;
    assert_eq!(describe_enchantment(&obj), "-2");
    obj.enchantment = 0;
    assert_eq!(describe_enchantment(&obj), "uncursed");
}

#[test]
fn test_damage_enchantment() {
    let mut obj = Object::new(ObjectId(1), 0, ObjectClass::Weapon);
    obj.enchantment = 5;
    let initial = obj.enchantment;
    let mut rng = GameRng::new(42);
    let _damaged = damage_enchantment(&mut obj, 1, &mut rng);
    assert!(obj.enchantment <= initial);
}

#[test]
fn test_enchant_cursed_weapon_uncurses_on_success() {
    let mut successes = 0;
    for seed in 0..40 {
        let mut obj = Object::new(ObjectId(1), 0, ObjectClass::Weapon);
        obj.buc = BucStatus::Cursed;
        let mut rng = GameRng::new(seed);
        let r = enchant_weapon(&mut obj, &mut rng);
        if r.success {
            successes += 1;
            assert_eq!(obj.buc, BucStatus::Uncursed);
            assert_eq!(obj.enchantment, 1);
            assert_eq!(r.messages, vec!["the weapon glows faintly.".to_string()]);
        } else {
            assert_eq!(obj.buc, BucStatus::Cursed);
            assert!(obj.enchantment == 0 || obj.enchantment == -1);
            assert_eq!(r.messages[0], "The enchantment fails!");
        }
    }
    assert!(successes > 0);
}

#[test]
fn test_enchantment_edges() {
    let mut obj = Object::new(ObjectId(1), 0, ObjectClass::Ring);
    obj.enchantment = -9;
    let r = disenchant(&mut obj);
    assert!(!r.success);
    assert_eq!(obj.enchantment, -9);
    assert!(can_enchant(&obj));
    assert!(!can_enchant(&Object::new(ObjectId(2), 0, ObjectClass::Potion)));
    obj.enchantment = 127;
    let mut rng = GameRng::new(0);
    for _ in 0..10 {
        enchant_armor(&mut obj, &mut rng);
    }
    assert_eq!(obj.enchantment, 127);
    assert_eq!(enchantment_damage_chance(&obj), 20);
    obj.recharged = 1;
    assert!(is_over_enchanted(&obj));
    let mut food = Object::new(ObjectId(3), 0, ObjectClass::Food);
    let r = recharge_wand(&mut food);
    assert_eq!(r.messages, vec!["That item cannot be recharged.".to_string()]);
    let mut wand = Object::new(ObjectId(4), 0, ObjectClass::Wand);
    wand.recharged = 1;
    let r = recharge_wand(&mut wand);
    assert!(!r.success);
    assert_eq!(wand.enchantment, 8);
    assert_eq!(r.messages, vec!["the wand glows with power!".to_string()]);
}
