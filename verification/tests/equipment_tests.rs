use nh_core::magic::cursed_items::{CursedConsequence, CursedEffect};
use nh_core::magic::equipment::{
    apply_artifact_to_player, apply_cursed_item_effects, check_artifact_warning, equip_item_with_effects,
    reapply_equipment_properties, remove_artifact_from_player, reset_equipment_properties,
    unequip_item_with_effects,
};
use nh_core::player::{Property, You};
use nh_core::rng::GameRng;

#[test]
fn test_apply_cursed_item_effects() {
    let mut player = You::default();
    let mut rng = GameRng::new(42);
    let messages = apply_cursed_item_effects(&mut player, &mut rng);
    assert!(messages.is_empty() || messages.len() > 0);
}

#[test]
fn test_reset_equipment_properties() {
    let mut player = You::default();
    reset_equipment_properties(&mut player);
    assert!(true);
}

#[test]
fn test_reapply_equipment_properties() {
    let mut player = You::default();
    reapply_equipment_properties(&mut player);
    assert!(true);
}

#[test]
fn test_equip_item_with_effects() {
    let mut player = You::default();
    let mut rng = GameRng::new(42);
    let _messages = equip_item_with_effects(&mut player, 1, &mut rng);
    assert!(player.equipped_items.contains(&1));
}

#[test]
fn test_unequip_item_with_effects() {
    let mut player = You::default();
    player.equipped_items.push(1);
    let _messages = unequip_item_with_effects(&mut player, 1);
    assert!(!player.equipped_items.contains(&1));
}

#[test]
fn test_apply_artifact_to_player() {
    let mut player = You::default();
    let messages = apply_artifact_to_player(&mut player, 1);
    assert!(messages.is_empty() || messages.len() > 0);
}

#[test]
fn test_remove_artifact_from_player() {
    let mut player = You::default();
    remove_artifact_from_player(&mut player, 1);
    assert!(true);
}

#[test]
fn test_cursed_armor_worsens_ac() {
    let mut player = You::default();
    player
        .cursed_item_tracker
        .add_curse(CursedConsequence::new(CursedEffect::ArmorPenalty, 3).with_magnitude(2));
    let mut rng = GameRng::new(1);
    let messages = apply_cursed_item_effects(&mut player, &mut rng);
    assert_eq!(player.armor_class, 12);
    assert!(messages.is_empty());
}

#[test]
fn test_certain_fumble() {
    let mut player = You::default();
    player
        .cursed_item_tracker
        .add_curse(CursedConsequence::new(CursedEffect::Fumbling, 3).with_magnitude(100));
    let mut rng = GameRng::new(1);
    let messages = apply_cursed_item_effects(&mut player, &mut rng);
    assert_eq!(messages, vec!["Your hands fumble!".to_string()]);
}

#[test]
fn test_equip_grants_bound_properties_and_unequip_takes_them() {
    let mut player = You::default();
    player.property_binding.bind_item_properties(7, vec![Property::Stealth]);
    let mut rng = GameRng::new(1);
    equip_item_with_effects(&mut player, 7, &mut rng);
    equip_item_with_effects(&mut player, 7, &mut rng);
    assert_eq!(player.equipped_items, vec![7]);
    assert!(player.properties.has_intrinsic(Property::Stealth));
    reset_equipment_properties(&mut player);
    assert!(!player.properties.has_intrinsic(Property::Stealth));
    reapply_equipment_properties(&mut player);
    assert!(player.properties.has_intrinsic(Property::Stealth));
    unequip_item_with_effects(&mut player, 7);
    assert!(player.equipped_items.is_empty());
    assert!(!player.properties.has_intrinsic(Property::Stealth));
}

#[test]
fn test_artifact_put_on_and_taken_off() {
    let mut player = You::default();
    let messages = apply_artifact_to_player(&mut player, 1);
    assert_eq!(messages, vec!["artifact glows a brilliant blue light!".to_string()]);
    assert!(player.properties.has_intrinsic(Property::FireResistance));
    remove_artifact_from_player(&mut player, 1);
    assert!(!player.properties.has_intrinsic(Property::FireResistance));
}

#[test]
fn test_artifact_warning_near_orcs() {
    let player = You::default();
    let nearby = vec![('d', "jackal".to_string()), ('o', "hill orc".to_string())];
    assert_eq!(check_artifact_warning(&player, 5, &nearby), Some("You sense a nearby threat!".to_string()));
    assert_eq!(check_artifact_warning(&player, 4, &nearby), None);
    assert_eq!(check_artifact_warning(&player, 7, &nearby), None);
}
