use nh_core::magic::advanced::{
    calculate_spell_failure_rate, calculate_spell_power, calculate_spell_resistance, can_start_spell,
    check_spell_failure, check_spell_interruption, check_spell_resistance, monster_save_vs_magic,
    spell_affects_demons, spell_affects_undead, spell_failure_message, SpellFailureReason,
};
use nh_core::player::{Attribute, You};
use nh_core::rng::GameRng;

#[test]
fn test_can_start_spell_success() {
    let mut player = You::default();
    player.energy = 20;
    assert!(can_start_spell(&player, 1).is_ok());
}

#[test]
fn test_can_start_spell_silenced() {
    let player = You::default();
    assert_eq!(can_start_spell(&player, 1), Err(SpellFailureReason::Exhausted));
}

#[test]
fn test_can_start_spell_confused() {
    let mut player = You::default();
    player.confused_timeout = 10;
    assert_eq!(can_start_spell(&player, 1), Err(SpellFailureReason::Confused));
}

#[test]
fn test_calculate_spell_failure_rate() {
    let player = You::default();
    let failure_rate = calculate_spell_failure_rate(&player, 3);
    assert!(failure_rate > 0);
    assert!(failure_rate < 100);
}

#[test]
fn test_calculate_spell_failure_high_int() {
    let mut player = You::default();
    player.attr_current.set(Attribute::Intelligence, 18);
    let failure_rate_high_int = calculate_spell_failure_rate(&player, 3);
    let mut player_low = You::default();
    player_low.attr_current.set(Attribute::Intelligence, 8);
    let failure_rate_low_int = calculate_spell_failure_rate(&player_low, 3);
    assert!(failure_rate_high_int < failure_rate_low_int);
}

#[test]
fn test_check_spell_failure() {
    let player = You::default();
    let mut rng = GameRng::new(42);
    let fails = check_spell_failure(&player, 1, &mut rng);
    assert!(fails || !fails);
}

#[test]
fn test_calculate_spell_power() {
    let player = You::default();
    let power = calculate_spell_power(&player, 3, 1);
    assert!(power >= 1);
}

#[test]
fn test_calculate_spell_power_high_stats() {
    let mut player = You::default();
    player.attr_current.set(Attribute::Intelligence, 18);
    player.energy = 100;
    let power_high = calculate_spell_power(&player, 3, 1);
    let mut player_low = You::default();
    player_low.attr_current.set(Attribute::Intelligence, 8);
    player_low.energy = 10;
    let power_low = calculate_spell_power(&player_low, 3, 1);
    assert!(power_high > power_low);
}

#[test]
fn test_spell_affects_undead() {
    assert!(spell_affects_undead("turn_undead"));
    assert!(spell_affects_undead("finger_of_death"));
    assert!(!spell_affects_undead("fireball"));
}

#[test]
fn test_spell_affects_demons() {
    assert!(spell_affects_demons("banishment"));
    assert!(spell_affects_demons("holy_word"));
    assert!(!spell_affects_demons("cone_of_cold"));
}

#[test]
fn test_monster_save_vs_magic() {
    let mut rng = GameRng::new(42);
    let saves = monster_save_vs_magic(5, 10, &mut rng);
    assert!(saves || !saves);
}

#[test]
fn test_spell_failure_message() {
    assert_eq!(spell_failure_message(SpellFailureReason::Silenced), "The spell fails; you cannot speak!");
    assert_eq!(spell_failure_message(SpellFailureReason::Exhausted), "You are too exhausted to cast this spell.");
}

#[test]
fn test_failure_rate_exact_values() {
    let mut player = You::default();
    player.attr_current.set(Attribute::Intelligence, 10);
    assert_eq!(calculate_spell_failure_rate(&player, 3), 15);
    player.attr_current.set(Attribute::Intelligence, 0);
    assert_eq!(calculate_spell_failure_rate(&player, 3), 30);
    player.attr_current.set(Attribute::Intelligence, 7);
    assert_eq!(calculate_spell_failure_rate(&player, 3), 18);
    player.confused_timeout = 3;
    assert_eq!(calculate_spell_failure_rate(&player, 30), 99);
    player.attr_current.set(Attribute::Intelligence, 25);
    player.confused_timeout = 0;
    assert_eq!(calculate_spell_failure_rate(&player, 1), 0);
}

#[test]
fn test_spell_power_exact() {
    let mut player = You::default();
    player.attr_current.set(Attribute::Intelligence, 12);
    player.energy = 35;
    assert_eq!(calculate_spell_power(&player, 2, 0), 27);
    player.attr_current.set(Attribute::Intelligence, 0);
    player.energy = 0;
    assert_eq!(calculate_spell_power(&player, 0, 0), 1);
}

#[test]
fn test_resistance_values() {
    assert_eq!(calculate_spell_resistance(0), 10);
    assert_eq!(calculate_spell_resistance(7), 24);
    let mut rng = GameRng::new(3);
    // Resistance far above 95 still leaves a 5% chance to pass, so most draws resist.
    let mut resisted = 0;
    for _ in 0..100 {
        if check_spell_resistance(100, 0, &mut rng) {
            resisted += 1;
        }
    }
    assert!(resisted > 80);
}

#[test]
fn test_interruption_only_when_confused() {
    let player = You::default();
    let mut rng = GameRng::new(5);
    for _ in 0..20 {
        assert!(check_spell_interruption(&player, &mut rng).is_none());
    }
    let mut confused = You::default();
    confused.confused_timeout = 5;
    let mut hit = false;
    for _ in 0..50 {
        if let Some(e) = check_spell_interruption(&confused, &mut rng) {
            assert_eq!(e.reason, SpellFailureReason::Interrupted);
            assert_eq!(e.message, "Your concentration is broken by confusion!");
            hit = true;
        }
    }
    assert!(hit);
}
