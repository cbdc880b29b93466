use nh_core::magic::property_binding::{
    apply_all_equipment_properties, calculate_property_bonus, determine_item_properties, refresh_all_properties,
    remove_all_equipment_properties, should_apply_property, should_track_property_source, PropertyBinding,
};
use nh_core::object::{BucStatus, Object, ObjectClass};
use nh_core::player::{Property, You};

#[test]
fn test_property_binding_new() {
    let binding = PropertyBinding::new();
    assert_eq!(binding.count_bound_items(), 0);
}

#[test]
fn test_property_binding_bind() {
    let mut binding = PropertyBinding::new();
    binding.bind_item_properties(1, vec![Property::FireResistance]);
    assert!(binding.is_bound(1));
    assert_eq!(binding.count_bound_items(), 1);
}

#[test]
fn test_property_binding_unbind() {
    let mut binding = PropertyBinding::new();
    binding.bind_item_properties(1, vec![Property::FireResistance]);
    binding.unbind_item(1);
    assert!(!binding.is_bound(1));
}

#[test]
fn test_property_binding_get_properties() {
    let mut binding = PropertyBinding::new();
    let props = vec![Property::FireResistance, Property::ColdResistance];
    binding.bind_item_properties(1, props.clone());
    let retrieved = binding.get_item_properties(1);
    assert!(retrieved.is_some());
    assert_eq!(retrieved.unwrap().len(), 2);
}

#[test]
fn test_property_binding_multiple_items() {
    let mut binding = PropertyBinding::new();
    binding.bind_item_properties(1, vec![Property::FireResistance]);
    binding.bind_item_properties(2, vec![Property::ColdResistance]);
    binding.bind_item_properties(3, vec![Property::Protection]);
    assert_eq!(binding.count_bound_items(), 3);
    assert!(binding.is_bound(1));
    assert!(binding.is_bound(2));
    assert!(binding.is_bound(3));
}

#[test]
fn test_calculate_property_bonus_no_items() {
    let binding = PropertyBinding::new();
    let bonus = calculate_property_bonus(&binding, Property::Protection, &[]);
    assert_eq!(bonus, 0);
}

#[test]
fn test_calculate_property_bonus_multiple() {
    let mut binding = PropertyBinding::new();
    binding.bind_item_properties(1, vec![Property::Protection]);
    binding.bind_item_properties(2, vec![Property::Protection]);
    let bonus = calculate_property_bonus(&binding, Property::Protection, &[1, 2]);
    assert_eq!(bonus, 2);
}

#[test]
fn test_calculate_property_bonus_mixed() {
    let mut binding = PropertyBinding::new();
    binding.bind_item_properties(1, vec![Property::FireResistance, Property::Protection]);
    binding.bind_item_properties(2, vec![Property::ColdResistance]);
    assert_eq!(calculate_property_bonus(&binding, Property::FireResistance, &[1, 2]), 1);
    assert_eq!(calculate_property_bonus(&binding, Property::Protection, &[1, 2]), 1);
    assert_eq!(calculate_property_bonus(&binding, Property::ColdResistance, &[1, 2]), 1);
}

#[test]
fn test_should_track_property_source_fire() {
    assert!(should_track_property_source(Property::FireResistance));
}

#[test]
fn test_should_track_property_source_speed() {
    assert!(!should_track_property_source(Property::Speed));
}

#[test]
fn test_property_binding_default() {
    let binding = PropertyBinding::default();
    assert_eq!(binding.count_bound_items(), 0);
}

#[test]
fn test_should_apply_property_invisibility() {
    let player = You::default();
    assert!(should_apply_property(&player, Property::Invisibility));
}

#[test]
fn test_should_apply_property_protection() {
    let player = You::default();
    assert!(should_apply_property(&player, Property::Protection));
}

#[test]
fn test_property_binding_rebind() {
    let mut binding = PropertyBinding::new();
    binding.bind_item_properties(1, vec![Property::FireResistance]);
    binding.bind_item_properties(1, vec![Property::ColdResistance]);
    let props = binding.get_item_properties(1);
    assert!(props.is_some());
    assert!(props.unwrap().contains(&Property::ColdResistance));
}

#[test]
fn test_determine_item_properties() {
    let obj = Object::default();
    let props = determine_item_properties(&obj);
    assert!(props.is_empty());
}

#[test]
fn test_determine_item_properties_blessed() {
    let mut obj = Object::default();
    obj.buc = BucStatus::Blessed;
    obj.class = ObjectClass::Armor;
    let props = determine_item_properties(&obj);
    assert!(!props.is_empty());
}

#[test]
fn test_refresh_all_properties_add() {
    let mut binding = PropertyBinding::new();
    binding.bind_item_properties(1, vec![Property::FireResistance]);
    binding.bind_item_properties(2, vec![Property::ColdResistance]);
    let old_equipped: Vec<u32> = vec![];
    let new_equipped = vec![1, 2];
    let _ = old_equipped.iter().all(|&id| new_equipped.contains(&id));
}

#[test]
fn test_property_binding_empty_properties() {
    let mut binding = PropertyBinding::new();
    binding.bind_item_properties(1, vec![]);
    assert!(binding.is_bound(1));
    assert_eq!(binding.count_bound_items(), 1);
}

#[test]
fn test_apply_then_remove_equipment_properties() {
    let mut binding = PropertyBinding::new();
    binding.bind_item_properties(1, vec![Property::FireResistance, Property::Stealth]);
    binding.bind_item_properties(2, vec![Property::ColdResistance]);
    let mut player = You::default();
    apply_all_equipment_properties(&mut player, &binding, &[1, 2, 7]);
    assert!(player.properties.has_intrinsic(Property::FireResistance));
    assert!(player.properties.has_intrinsic(Property::Stealth));
    assert!(player.properties.has_intrinsic(Property::ColdResistance));
    remove_all_equipment_properties(&mut player, &binding, &[1]);
    assert!(!player.properties.has_intrinsic(Property::FireResistance));
    assert!(player.properties.has_intrinsic(Property::ColdResistance));
}

#[test]
fn test_refresh_swaps_items() {
    let mut binding = PropertyBinding::new();
    binding.bind_item_properties(1, vec![Property::FireResistance]);
    binding.bind_item_properties(2, vec![Property::ColdResistance]);
    let mut player = You::default();
    apply_all_equipment_properties(&mut player, &binding, &[1]);
    refresh_all_properties(&mut player, &binding, &[1], &[2]);
    assert!(!player.properties.has_intrinsic(Property::FireResistance));
    assert!(player.properties.has_intrinsic(Property::ColdResistance));
}

#[test]
fn test_should_apply_levitation_twice() {
    let mut player = You::default();
    player.properties.grant_intrinsic(Property::Levitation);
    assert!(!should_apply_property(&player, Property::Levitation));
}

#[test]
fn test_amulet_with_enchantment_protects() {
    let mut obj = Object::default();
    obj.class = ObjectClass::Amulet;
    obj.enchantment = 1;
    assert_eq!(determine_item_properties(&obj), vec![Property::Protection]);
}
