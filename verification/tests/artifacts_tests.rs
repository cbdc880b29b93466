use nh_core::magic::artifacts::{
    apply_artifact_effects, artifact_discovered, artifact_exists, artifact_provides_protection,
    discover_artifact, get_artifact_attack_bonus, get_artifact_defense_bonus,
    get_artifact_effects, get_artifact_warning, init_artifacts, mb_hit, nartifact_exist,
    remove_artifact_effects, set_artifact_exists, should_warn_of_monster, ArtifactAbility,
    ArtifactAttackType, ArtifactEffects, ArtifactProperty, ArtifactRegistry, MagicbaneEffect,
};
use nh_core::player::{Property, You};
use nh_core::rng::GameRng;

#[test]
fn test_artifact_property_to_player_property() {
    assert_eq!(
        ArtifactProperty::FireResistance.to_player_property(),
        Some(Property::FireResistance)
    );
    assert_eq!(
        ArtifactProperty::SeeInvisible.to_player_property(),
        Some(Property::SeeInvisible)
    );
    assert_eq!(ArtifactProperty::GrantsAttack.to_player_property(), None);
}

#[test]
fn test_get_artifact_effects_excalibur() {
    let effects = get_artifact_effects(1);
    assert_eq!(effects.attack, ArtifactAttackType::DrainLife);
    assert_eq!(effects.damage_bonus, 5);
    assert!(effects.properties.contains(&ArtifactProperty::FireResistance));
}

#[test]
fn test_get_artifact_effects_sting() {
    let effects = get_artifact_effects(4);
    assert_eq!(effects.attack, ArtifactAttackType::Physical);
    assert_eq!(effects.damage_bonus, 3);
    assert!(effects.properties.contains(&ArtifactProperty::SeeInvisible));
}

#[test]
fn test_artifact_ability_description() {
    assert!(ArtifactAbility::WarnsOfMonsters.description().contains("warns"));
    assert!(ArtifactAbility::EmitsLight.description().contains("light"));
}

#[test]
fn test_artifact_attack_type_message() {
    assert_eq!(ArtifactAttackType::Fire.damage_message(), "burns");
    assert_eq!(ArtifactAttackType::DrainLife.damage_message(), "drains life from");
}

#[test]
fn test_should_warn_of_monster_sting() {
    assert!(should_warn_of_monster(4, 's'));
    assert!(should_warn_of_monster(4, 'h'));
    assert!(!should_warn_of_monster(4, 'd'));
}

#[test]
fn test_should_warn_of_monster_orcrist() {
    assert!(should_warn_of_monster(5, 'o'));
    assert!(should_warn_of_monster(5, 'O'));
    assert!(!should_warn_of_monster(5, 's'));
}

#[test]
fn test_get_artifact_warning() {
    let warning = get_artifact_warning(1, "Excalibur");
    assert!(warning.is_some());
    assert!(warning.unwrap().contains("Excalibur"));
}

#[test]
fn test_get_artifact_attack_bonus() {
    let bonus = get_artifact_attack_bonus(1);
    assert_eq!(bonus, 5);
}

#[test]
fn test_get_artifact_defense_bonus() {
    let bonus = get_artifact_defense_bonus(1);
    assert_eq!(bonus, 0);
}

#[test]
fn test_artifact_provides_protection_fire() {
    assert!(artifact_provides_protection(1, "fire"));
    assert!(!artifact_provides_protection(4, "fire"));
}

#[test]
fn test_artifact_provides_protection_cold() {
    assert!(artifact_provides_protection(2, "cold"));
    assert!(!artifact_provides_protection(1, "cold"));
}

#[test]
fn test_artifact_effects_default() {
    let effects = ArtifactEffects::default();
    assert_eq!(effects.attack, ArtifactAttackType::NoAttack);
    assert_eq!(effects.luck_bonus, 0);
    assert!(effects.properties.is_empty());
}

#[test]
fn test_artifact_property_descriptions() {
    assert!(!ArtifactProperty::FireResistance.description().is_empty());
    assert!(!ArtifactProperty::Speed.description().is_empty());
    assert!(!ArtifactProperty::Regeneration.description().is_empty());
}

#[test]
fn test_artifact_effects_multiple_properties() {
    let effects = get_artifact_effects(2);
    assert!(effects.properties.len() >= 2);
}

#[test]
fn test_init_artifacts() {
    let mut registry = ArtifactRegistry::new();
    init_artifacts(&mut registry);
    assert_eq!(nartifact_exist(&registry), 0);
}

#[test]
fn test_artifact_exists_tracking() {
    let mut registry = ArtifactRegistry::new();
    init_artifacts(&mut registry);

    set_artifact_exists(&mut registry, 1, true);
    assert!(artifact_exists(&registry, 1));
    assert_eq!(nartifact_exist(&registry), 1);

    set_artifact_exists(&mut registry, 2, true);
    assert!(artifact_exists(&registry, 2));
    assert_eq!(nartifact_exist(&registry), 2);

    set_artifact_exists(&mut registry, 1, false);
    assert!(!artifact_exists(&registry, 1));
    assert_eq!(nartifact_exist(&registry), 1);

    init_artifacts(&mut registry);
}

#[test]
fn test_artifact_discovery() {
    let mut registry = ArtifactRegistry::new();
    init_artifacts(&mut registry);

    discover_artifact(&mut registry, 1);
    assert!(artifact_discovered(&registry, 1));
    assert!(!artifact_discovered(&registry, 2));

    discover_artifact(&mut registry, 2);
    assert!(artifact_discovered(&registry, 2));

    init_artifacts(&mut registry);
}

#[test]
fn test_apply_and_remove_artifact_effects() {
    let mut player = You::default();
    let mut effects = get_artifact_effects(4);
    effects.luck_bonus = 20;
    apply_artifact_effects(&mut player, &effects);
    assert!(player.properties.has(Property::SeeInvisible));
    assert!(player.properties.has(Property::Stealth));
    assert!(!player.properties.has(Property::FireResistance));
    assert_eq!(player.luck, 13);
    remove_artifact_effects(&mut player, &effects);
    assert!(!player.properties.has(Property::SeeInvisible));
    assert_eq!(player.luck, -7);
}

#[test]
fn test_unknown_artifacts_and_registry_bounds() {
    let e = get_artifact_effects(99);
    assert!(e.properties.is_empty());
    assert_eq!(e.ability, ArtifactAbility::NoAbility);
    assert!(get_artifact_warning(3, "Mjollnir").is_none());
    assert_eq!(
        get_artifact_warning(6, "Grimtooth").unwrap(),
        "Grimtooth pulses with a dull red glow."
    );
    assert!(!artifact_provides_protection(1, "acid"));
    let mut registry = ArtifactRegistry::new();
    set_artifact_exists(&mut registry, 0, true);
    set_artifact_exists(&mut registry, 40, true);
    assert_eq!(nartifact_exist(&registry), 0);
    assert!(!artifact_exists(&registry, 0));
}

#[test]
fn test_magicbane_hit() {
    let mut rng = GameRng::new(3);
    let (dmg, effect, msg) = mb_hit(true, 1, 0, 0, &mut rng);
    assert_eq!(effect, Some(MagicbaneEffect::Cancel));
    assert!(dmg >= 4 && dmg <= 16);
    assert_eq!(msg, "The magic-absorbing blade cancels!");
    let mut rng = GameRng::new(3);
    let (dmg, effect, msg) = mb_hit(true, 20, 7, 100, &mut rng);
    assert_eq!(effect, Some(MagicbaneEffect::Probe));
    assert!(dmg >= 1 && dmg <= 4);
    assert_eq!(msg, "The magic-absorbing blade probes!");
}

#[test]
fn test_mb_hit() {
    let mut rng = GameRng::new(12345);
    let (damage, effect, message) = mb_hit(true, 5, 0, 0, &mut rng);
    assert!(damage > 0);
    assert!(effect.is_some());
    assert!(!message.is_empty());
}

#[test]
fn test_artifact_on_then_off_restores_luck() {
    let mut player = You::default();
    player.luck = 2;
    let mut effects = get_artifact_effects(4);
    effects.luck_bonus = 5;
    let before = player.clone();
    apply_artifact_effects(&mut player, &effects);
    assert_eq!(player.luck, 7);
    remove_artifact_effects(&mut player, &effects);
    assert_eq!(player.luck, before.luck);
    assert!(!player.properties.has(Property::SeeInvisible));
    assert_eq!(player.armor_class, before.armor_class);
}
