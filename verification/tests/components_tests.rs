use nh_core::magic::components::{
    can_cast_with_components, consume_spell_components, get_spell_components,
    missing_component_message, ComponentInventory, ComponentType,
};

#[test]
fn test_component_inventory_add() {
    let mut inv = ComponentInventory::new();
    inv.add_component(ComponentType::HerbOfHealing, 5);
    assert_eq!(inv.get_component_count(ComponentType::HerbOfHealing), 5);
}

#[test]
fn test_component_inventory_remove() {
    let mut inv = ComponentInventory::new();
    inv.add_component(ComponentType::HerbOfHealing, 5);
    let success = inv.remove_components(ComponentType::HerbOfHealing, 3);
    assert!(success);
    assert_eq!(inv.get_component_count(ComponentType::HerbOfHealing), 2);
}

#[test]
fn test_component_inventory_remove_fails_insufficient() {
    let mut inv = ComponentInventory::new();
    inv.add_component(ComponentType::HerbOfHealing, 2);
    let success = inv.remove_components(ComponentType::HerbOfHealing, 5);
    assert!(!success);
    assert_eq!(inv.get_component_count(ComponentType::HerbOfHealing), 2);
}

#[test]
fn test_has_components() {
    let mut inv = ComponentInventory::new();
    inv.add_component(ComponentType::HerbOfHealing, 3);
    inv.add_component(ComponentType::FlamingCoal, 2);
    let required = vec![(ComponentType::HerbOfHealing, 2), (ComponentType::FlamingCoal, 2)];
    assert!(inv.has_components(&required));
    let required_too_much = vec![(ComponentType::HerbOfHealing, 4), (ComponentType::FlamingCoal, 1)];
    assert!(!inv.has_components(&required_too_much));
}

#[test]
fn test_can_cast_with_components() {
    let mut inv = ComponentInventory::new();
    inv.add_component(ComponentType::FlamingCoal, 1);
    inv.add_component(ComponentType::SulfurousDust, 1);
    let (can_cast, _needed) = can_cast_with_components(&inv, "fireball");
    assert!(can_cast);
}

#[test]
fn test_can_cast_missing_components() {
    let inv = ComponentInventory::new();
    let (can_cast, needed) = can_cast_with_components(&inv, "fireball");
    assert!(!can_cast);
    assert!(!needed.is_empty());
}

#[test]
fn test_consume_spell_components() {
    let mut inv = ComponentInventory::new();
    inv.add_component(ComponentType::FlamingCoal, 1);
    inv.add_component(ComponentType::SulfurousDust, 1);
    let success = consume_spell_components(&mut inv, "fireball");
    assert!(success);
    assert_eq!(inv.get_component_count(ComponentType::FlamingCoal), 0);
    assert_eq!(inv.get_component_count(ComponentType::SulfurousDust), 0);
}

#[test]
fn test_missing_component_message() {
    let needed = vec![(ComponentType::HerbOfHealing, 2), (ComponentType::FlamingCoal, 1)];
    let msg = missing_component_message(&needed);
    assert!(msg.contains("herb of healing"));
    assert!(msg.contains("flaming coal"));
}

#[test]
fn test_spell_requirements() {
    let fireball_reqs = get_spell_components("fireball");
    assert_eq!(fireball_reqs.len(), 2);
    let healing_reqs = get_spell_components("healing");
    assert_eq!(healing_reqs.len(), 1);
    assert_eq!(healing_reqs[0].component_type, ComponentType::HerbOfHealing);
}

#[test]
fn test_component_type_name() {
    assert_eq!(ComponentType::HerbOfHealing.name(), "herb of healing");
    assert_eq!(ComponentType::SulfurousDust.name(), "sulfurous dust");
}

#[test]
fn test_list_available() {
    let mut inv = ComponentInventory::new();
    inv.add_component(ComponentType::HerbOfHealing, 3);
    inv.add_component(ComponentType::FlamingCoal, 1);
    let available = inv.list_available();
    assert_eq!(available.len(), 2);
}

#[test]
fn test_missing_component_message_exact() {
    let needed = vec![(ComponentType::HerbOfHealing, 2), (ComponentType::FlamingCoal, 1)];
    assert_eq!(
        missing_component_message(&needed),
        "You need: 2 herb of healing, 1 flaming coal"
    );
    assert_eq!(
        missing_component_message(&[]),
        "You lack the necessary components for this spell."
    );
}

#[test]
fn test_consume_stops_at_first_missing() {
    let mut inv = ComponentInventory::new();
    inv.add_component(ComponentType::FlamingCoal, 1);
    assert!(!consume_spell_components(&mut inv, "fireball"));
    assert_eq!(inv.get_component_count(ComponentType::FlamingCoal), 0);
    assert!(consume_spell_components(&mut inv, "unknown_spell"));
}

#[test]
fn test_component_costs_and_repeat_add() {
    assert_eq!(ComponentType::DiamondDust.cost(), 2);
    assert_eq!(ComponentType::MoonStonePowder.cost(), 2);
    assert_eq!(ComponentType::ToadStool.cost(), 1);
    let mut inv = ComponentInventory::default();
    inv.add_component(ComponentType::SilverDust, 2);
    inv.add_component(ComponentType::SilverDust, 3);
    assert_eq!(inv.get_component_count(ComponentType::SilverDust), 5);
    assert_eq!(inv.list_available().len(), 1);
    assert_eq!(inv.get_component_count(ComponentType::ToadStool), 0);
}
