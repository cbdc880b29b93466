use nh_core::magic::potion::{
    glow_color, glow_strength, glow_verb, p_glow1, p_glow2, potionbreathe, potionhit, potionhit_monster,
    potionhit_player, quaff_potion, PotionHitResult, PotionResult, PotionType,
};
use nh_core::monster::{Monster, MonsterId, MonsterResistances};
use nh_core::object::{BucStatus, Object, ObjectClass};
use nh_core::player::{Attribute, Property, You};
use nh_core::rng::GameRng;

fn make_potion(ptype: PotionType, buc: BucStatus) -> Object {
    let mut obj = Object::default();
    obj.object_type = ptype.object_type();
    obj.class = ObjectClass::Potion;
    obj.buc = buc;
    obj
}

#[test]
fn test_potion_type_from_object() {
    assert_eq!(PotionType::from_object_type(267), Some(PotionType::Healing));
    assert_eq!(PotionType::from_object_type(999), None);
}

#[test]
fn test_glow_strength() {
    assert_eq!(glow_strength(0), 0);
    assert_eq!(glow_strength(1), 1);
    assert_eq!(glow_strength(5), 2);
    assert_eq!(glow_strength(13), 3);
}

#[test]
fn test_glow_verb() {
    assert_eq!(glow_verb(0, false), "quiver");
    assert_eq!(glow_verb(1, false), "flicker");
    assert_eq!(glow_verb(5, false), "glimmer");
    assert_eq!(glow_verb(13, false), "gleam");
    assert_eq!(glow_verb(5, true), "glimmering");
}

#[test]
fn test_glow_color() {
    assert_eq!(glow_color(3), "blue");
    assert_eq!(glow_color(7), "white");
    assert_eq!(glow_color(12), "yellow");
    assert_eq!(glow_color(100), "blue");
}

#[test]
fn test_p_glow1() {
    let msg = p_glow1("Sting");
    assert!(msg.contains("briefly"));
}

#[test]
fn test_p_glow2() {
    let msg = p_glow2("Excalibur", "white");
    assert!(msg.contains("white"));
    assert!(msg.contains("for a moment"));
}

#[test]
fn test_potion_result() {
    let result = PotionResult::new();
    assert!(result.messages.is_empty());
    assert!(result.consumed);
    assert!(!result.player_died);
    assert!(result.identify);
    let result = result.with_message("Test message");
    assert_eq!(result.messages.len(), 1);
}

#[test]
fn test_potion_hit_result() {
    let result = PotionHitResult::new();
    assert!(result.messages.is_empty());
    assert_eq!(result.damage, 0);
    assert!(result.broke);
    assert!(!result.hit_player);
    let result = result.with_message("Crash!");
    assert_eq!(result.messages.len(), 1);
}

#[test]
fn test_potionhit_player_healing() {
    let mut player = You::default();
    let mut rng = GameRng::new(42);
    player.hp = 10;
    player.hp_max = 50;
    let potion = make_potion(PotionType::Healing, BucStatus::Uncursed);
    let result = potionhit_player(&potion, &mut player, &mut rng);
    assert!(player.hp > 10, "Healing potion should heal player");
    assert!(result.broke);
    assert!(result.hit_player);
}

#[test]
fn test_potionhit_player_acid() {
    let mut player = You::default();
    let mut rng = GameRng::new(42);
    player.hp = 50;
    player.hp_max = 50;
    let potion = make_potion(PotionType::Acid, BucStatus::Uncursed);
    let result = potionhit_player(&potion, &mut player, &mut rng);
    assert!(result.damage > 0, "Acid potion should deal damage");
    assert!(result.messages.iter().any(|m| m.contains("burns")));
}

#[test]
fn test_potionhit_player_sleep() {
    let mut player = You::default();
    let mut rng = GameRng::new(42);
    let potion = make_potion(PotionType::Sleeping, BucStatus::Uncursed);
    let _result = potionhit_player(&potion, &mut player, &mut rng);
    assert!(player.sleeping_timeout > 0, "Sleep potion should put player to sleep");
}

#[test]
fn test_potionhit_player_paralysis_with_free_action() {
    let mut player = You::default();
    let mut rng = GameRng::new(42);
    player.properties.grant_intrinsic(Property::FreeAction);
    let potion = make_potion(PotionType::Paralysis, BucStatus::Uncursed);
    let result = potionhit_player(&potion, &mut player, &mut rng);
    assert_eq!(player.paralyzed_timeout, 0, "Free Action should prevent paralysis");
    assert!(result.messages.iter().any(|m| m.contains("momentarily")));
}

#[test]
fn test_potionhit_player_confusion() {
    let mut player = You::default();
    let mut rng = GameRng::new(42);
    let potion = make_potion(PotionType::Confusion, BucStatus::Uncursed);
    let _result = potionhit_player(&potion, &mut player, &mut rng);
    assert!(player.confused_timeout > 0, "Confusion potion should confuse player");
}

#[test]
fn test_potionhit_player_blindness() {
    let mut player = You::default();
    let mut rng = GameRng::new(42);
    let potion = make_potion(PotionType::Blindness, BucStatus::Uncursed);
    let _result = potionhit_player(&potion, &mut player, &mut rng);
    assert!(player.blinded_timeout > 0, "Blindness potion should blind player");
}

#[test]
fn test_potionhit_monster_healing() {
    let mut monster = Monster::new(MonsterId(0), 0, 5, 5);
    let mut rng = GameRng::new(42);
    monster.hp = 5;
    monster.hp_max = 20;
    let potion = make_potion(PotionType::Healing, BucStatus::Uncursed);
    let _result = potionhit_monster(&potion, &mut monster, &mut rng);
    assert_eq!(monster.hp, monster.hp_max, "Healing potion should fully heal monster");
}

#[test]
fn test_potionhit_monster_sickness() {
    let mut monster = Monster::new(MonsterId(0), 0, 5, 5);
    let mut rng = GameRng::new(42);
    monster.hp = 20;
    monster.hp_max = 20;
    monster.resistances = MonsterResistances::empty();
    let potion = make_potion(PotionType::Sickness, BucStatus::Uncursed);
    let _result = potionhit_monster(&potion, &mut monster, &mut rng);
    assert_eq!(monster.hp_max, 10, "Sickness should halve monster max HP");
    assert!(monster.hp <= 10, "Sickness should halve monster HP (plus possible bottle damage)");
}

#[test]
fn test_potionhit_monster_sleeping() {
    let mut monster = Monster::new(MonsterId(0), 0, 5, 5);
    let mut rng = GameRng::new(42);
    monster.resistances = MonsterResistances::empty();
    let potion = make_potion(PotionType::Sleeping, BucStatus::Uncursed);
    let _result = potionhit_monster(&potion, &mut monster, &mut rng);
    assert!(monster.state.sleeping, "Sleep potion should put monster to sleep");
}

#[test]
fn test_potionhit_monster_paralysis() {
    let mut monster = Monster::new(MonsterId(0), 0, 5, 5);
    let mut rng = GameRng::new(42);
    monster.state.can_move = true;
    let potion = make_potion(PotionType::Paralysis, BucStatus::Uncursed);
    let _result = potionhit_monster(&potion, &mut monster, &mut rng);
    assert!(monster.state.paralyzed, "Paralysis potion should paralyze monster");
    assert!(!monster.state.can_move, "Paralyzed monster cannot move");
}

#[test]
fn test_potionhit_monster_speed() {
    let mut monster = Monster::new(MonsterId(0), 0, 5, 5);
    let mut rng = GameRng::new(42);
    let potion = make_potion(PotionType::Speed, BucStatus::Uncursed);
    let _result = potionhit_monster(&potion, &mut monster, &mut rng);
    assert!(monster.state.hasted, "Speed potion should haste monster");
}

#[test]
fn test_potionhit_monster_acid() {
    let mut monster = Monster::new(MonsterId(0), 0, 5, 5);
    let mut rng = GameRng::new(42);
    monster.hp = 50;
    monster.hp_max = 50;
    let potion = make_potion(PotionType::Acid, BucStatus::Uncursed);
    let result = potionhit_monster(&potion, &mut monster, &mut rng);
    assert!(result.damage > 0, "Acid should deal damage to monster");
    assert!(monster.hp < 50);
}

#[test]
fn test_potionbreathe_healing() {
    let mut player = You::default();
    let mut rng = GameRng::new(42);
    player.hp = 10;
    player.hp_max = 50;
    let potion = make_potion(PotionType::Healing, BucStatus::Uncursed);
    let _result = potionbreathe(&potion, &mut player, &mut rng);
    assert_eq!(player.hp, 11, "Healing vapors should heal 1 HP");
}

#[test]
fn test_potionbreathe_full_healing_cures_blindness() {
    let mut player = You::default();
    let mut rng = GameRng::new(42);
    player.blinded_timeout = 50;
    let potion = make_potion(PotionType::FullHealing, BucStatus::Uncursed);
    let result = potionbreathe(&potion, &mut player, &mut rng);
    assert_eq!(player.blinded_timeout, 0, "Full healing vapors cure blindness");
    assert!(result.messages.iter().any(|m| m.contains("vision clears")));
}

#[test]
fn test_potionbreathe_sickness_damages() {
    let mut player = You::default();
    let mut rng = GameRng::new(42);
    player.hp = 20;
    player.hp_max = 50;
    let potion = make_potion(PotionType::Sickness, BucStatus::Uncursed);
    let _result = potionbreathe(&potion, &mut player, &mut rng);
    assert_eq!(player.hp, 15, "Sickness vapors should reduce HP by 5");
}

#[test]
fn test_potionbreathe_confusion() {
    let mut player = You::default();
    let mut rng = GameRng::new(42);
    let potion = make_potion(PotionType::Confusion, BucStatus::Uncursed);
    let result = potionbreathe(&potion, &mut player, &mut rng);
    assert!(player.confused_timeout > 0, "Confusion vapors should confuse");
    assert!(result.messages.iter().any(|m| m.contains("dizzy")));
}

#[test]
fn test_potionbreathe_sleep_with_resistance() {
    let mut player = You::default();
    let mut rng = GameRng::new(42);
    player.properties.grant_intrinsic(Property::SleepResistance);
    let potion = make_potion(PotionType::Sleeping, BucStatus::Uncursed);
    let result = potionbreathe(&potion, &mut player, &mut rng);
    assert_eq!(player.sleeping_timeout, 0, "Sleep resistance prevents sleep from vapors");
    assert!(result.messages.iter().any(|m| m.contains("yawn")));
}

#[test]
fn test_potionbreathe_restore_ability_blessed() {
    let mut player = You::default();
    let mut rng = GameRng::new(42);
    player.attr_max.set(Attribute::Strength, 18);
    player.attr_max.set(Attribute::Dexterity, 16);
    player.attr_current.set(Attribute::Strength, 14);
    player.attr_current.set(Attribute::Dexterity, 12);
    let potion = make_potion(PotionType::Restore, BucStatus::Blessed);
    let _result = potionbreathe(&potion, &mut player, &mut rng);
    assert!(
        player.attr_current.get(Attribute::Strength) >= 15
            || player.attr_current.get(Attribute::Dexterity) >= 13,
        "Blessed restore vapors should improve at least one stat"
    );
}

#[test]
fn test_potionbreathe_speed() {
    let mut player = You::default();
    let mut rng = GameRng::new(42);
    let potion = make_potion(PotionType::Speed, BucStatus::Uncursed);
    let result = potionbreathe(&potion, &mut player, &mut rng);
    assert!(result.messages.iter().any(|m| m.contains("flexible")));
}

#[test]
fn test_quaff_not_a_potion() {
    let mut player = You::default();
    let mut rng = GameRng::new(7);
    let obj = Object::default();
    let result = quaff_potion(&obj, &mut player, &mut rng);
    assert_eq!(result.messages, vec!["That's not a potion!".to_string()]);
    assert_eq!(player.hp, 10);
}

#[test]
fn test_quaff_full_healing_blessed_raises_max() {
    let mut player = You::default();
    let mut rng = GameRng::new(7);
    player.hp = 3;
    player.hp_max = 40;
    player.blinded_timeout = 9;
    let potion = make_potion(PotionType::FullHealing, BucStatus::Blessed);
    let result = quaff_potion(&potion, &mut player, &mut rng);
    assert_eq!(player.hp_max, 48);
    assert_eq!(player.hp, 48);
    assert_eq!(player.blinded_timeout, 0);
    assert_eq!(
        result.messages,
        vec!["You feel completely healed.".to_string(), "Your max HP increases by 8!".to_string()]
    );
}

#[test]
fn test_quaff_full_healing_cursed_half() {
    let mut player = You::default();
    let mut rng = GameRng::new(7);
    player.hp = 3;
    player.hp_max = 40;
    let potion = make_potion(PotionType::FullHealing, BucStatus::Cursed);
    let _ = quaff_potion(&potion, &mut player, &mut rng);
    assert_eq!(player.hp, 23);
}

#[test]
fn test_quaff_gain_level_uncursed_and_cursed() {
    let mut player = You::default();
    let mut rng = GameRng::new(7);
    let potion = make_potion(PotionType::GainLevel, BucStatus::Uncursed);
    let result = quaff_potion(&potion, &mut player, &mut rng);
    assert_eq!(player.exp_level, 2);
    assert_eq!(player.hp_max, 15);
    assert_eq!(player.hp, 15);
    assert_eq!(result.messages, vec!["Welcome to experience level 2!".to_string()]);
    let cursed = make_potion(PotionType::GainLevel, BucStatus::Cursed);
    let result = quaff_potion(&cursed, &mut player, &mut rng);
    assert_eq!(result.level_change, 1);
    assert_eq!(player.exp_level, 2);
}

#[test]
fn test_quaff_healing_amount_in_range() {
    let mut player = You::default();
    let mut rng = GameRng::new(11);
    player.hp = 1;
    player.hp_max = 100;
    let potion = make_potion(PotionType::Healing, BucStatus::Blessed);
    let result = quaff_potion(&potion, &mut player, &mut rng);
    assert!(player.hp >= 13 && player.hp <= 41);
    assert_eq!(result.messages[0], format!("You feel better. (+{} HP)", player.hp - 1));
}

#[test]
fn test_quaff_acid_kills_weak_hero() {
    let mut player = You::default();
    let mut rng = GameRng::new(3);
    player.hp = 1;
    let potion = make_potion(PotionType::Acid, BucStatus::Uncursed);
    let result = quaff_potion(&potion, &mut player, &mut rng);
    assert!(result.player_died);
    assert!(player.hp <= -1);
}

#[test]
fn test_quaff_restore_sets_current_to_max() {
    let mut player = You::default();
    let mut rng = GameRng::new(3);
    player.attr_max.set(Attribute::Strength, 12);
    player.attr_current.set(Attribute::Strength, 4);
    let potion = make_potion(PotionType::Restore, BucStatus::Uncursed);
    let result = quaff_potion(&potion, &mut player, &mut rng);
    assert_eq!(player.attr_current.get(Attribute::Strength), 12);
    assert_eq!(result.messages, vec!["You feel restored.".to_string()]);
}

#[test]
fn test_potionbreathe_blessed_restores_every_depleted_stat() {
    let mut player = You::default();
    let mut rng = GameRng::new(5);
    player.attr_max.set(Attribute::Strength, 10);
    player.attr_max.set(Attribute::Wisdom, 10);
    player.attr_max.set(Attribute::Dexterity, 10);
    player.attr_current.set(Attribute::Strength, 7);
    player.attr_current.set(Attribute::Wisdom, 8);
    player.attr_current.set(Attribute::Dexterity, 10);
    let potion = make_potion(PotionType::GainAbility, BucStatus::Blessed);
    let result = potionbreathe(&potion, &mut player, &mut rng);
    assert_eq!(player.attr_current.get(Attribute::Strength), 8);
    assert_eq!(player.attr_current.get(Attribute::Wisdom), 9);
    assert_eq!(player.attr_current.get(Attribute::Dexterity), 10);
    assert!(!result.consumed);
}

#[test]
fn test_potionhit_monster_holy_water_hurts_undead() {
    let mut monster = Monster::new(MonsterId(1), 0, 1, 1);
    let mut rng = GameRng::new(9);
    monster.hp = 40;
    monster.hp_max = 40;
    monster.undead = true;
    let potion = make_potion(PotionType::Water, BucStatus::Blessed);
    let result = potionhit_monster(&potion, &mut monster, &mut rng);
    assert!(monster.hp <= 38 && monster.hp >= 27);
    assert!(result.messages.iter().any(|m| m == "The monster shrieks in pain!"));
    assert!(!monster.state.sleeping);
}

#[test]
fn test_potionhit_alias_not_a_potion() {
    let mut player = You::default();
    let mut rng = GameRng::new(9);
    let obj = Object::default();
    let result = potionhit(&obj, &mut player, &mut rng);
    assert_eq!(result.messages, vec!["The potion crashes but nothing happens.".to_string()]);
    assert!(!result.hit_player);
}
