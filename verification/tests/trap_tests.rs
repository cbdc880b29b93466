use nh_core::dungeon::level::{DLevel, Level, Trap, TrapType};
use nh_core::dungeon::trap::{
    activate_statue_trap, b_trapped, can_disarm, chest_trap, count_surround_traps, create_trap,
    disarm_difficulty, dotrap, is_holding_trap, is_hole, is_pit, is_statue_trap, random_trap_type,
    rndtrap, roll_trap_damage, trap_name, trigger_trap, ContainerTrap, StatusEffect, TrapContext,
    TrapEffect, TrapResistances,
};
use nh_core::dungeon::trap::resistances_from_properties;
use nh_core::player::Property;
use nh_core::rng::GameRng;

#[test]
fn test_create_trap() {
    let trap = create_trap(5, 10, TrapType::BearTrap);
    assert_eq!(trap.x, 5);
    assert_eq!(trap.y, 10);
    assert_eq!(trap.trap_type, TrapType::BearTrap);
    assert!(!trap.activated);
    assert!(!trap.seen);
}

#[test]
fn test_random_trap_type() {
    let mut rng = GameRng::from_entropy();
    let ctx = TrapContext::default();
    let mut types: Vec<TrapType> = Vec::new();
    for _ in 0..100 {
        let t = random_trap_type(&mut rng, &ctx);
        if !types.contains(&t) {
            types.push(t);
        }
    }
    assert!(types.len() > 5, "Should generate variety of trap types");
}

#[test]
fn test_is_pit() {
    assert!(is_pit(TrapType::Pit));
    assert!(is_pit(TrapType::SpikedPit));
    assert!(!is_pit(TrapType::BearTrap));
}

#[test]
fn test_is_hole() {
    assert!(is_hole(TrapType::Hole));
    assert!(is_hole(TrapType::TrapDoor));
    assert!(!is_hole(TrapType::Pit));
}

#[test]
fn test_is_holding_trap() {
    assert!(is_holding_trap(TrapType::BearTrap));
    assert!(is_holding_trap(TrapType::Web));
    assert!(is_holding_trap(TrapType::Pit));
    assert!(!is_holding_trap(TrapType::Arrow));
}

#[test]
fn test_trap_damage() {
    let mut rng = GameRng::from_entropy();
    let damage = roll_trap_damage(&mut rng, TrapType::Arrow);
    assert!(damage >= 1 && damage <= 6);
    let damage = roll_trap_damage(&mut rng, TrapType::LandMine);
    assert!(damage >= 4 && damage <= 24);
}

#[test]
fn test_trigger_trap() {
    let mut rng = GameRng::from_entropy();
    let mut trap = create_trap(5, 5, TrapType::BearTrap);
    let effect = trigger_trap(&mut rng, &mut trap);
    assert!(trap.activated);
    assert!(trap.seen);
    assert!(matches!(effect, TrapEffect::Trapped { .. } | TrapEffect::Damage(_)));
}

#[test]
fn test_trap_name() {
    assert_eq!(trap_name(TrapType::BearTrap), "bear trap");
    assert_eq!(trap_name(TrapType::Pit), "pit");
    assert_eq!(trap_name(TrapType::Teleport), "teleportation trap");
}

#[test]
fn test_can_disarm() {
    assert!(can_disarm(TrapType::BearTrap));
    assert!(can_disarm(TrapType::Arrow));
    assert!(!can_disarm(TrapType::MagicPortal));
    assert!(!can_disarm(TrapType::Hole));
}

#[test]
fn test_disarm_difficulty() {
    assert!(disarm_difficulty(TrapType::Squeaky) < disarm_difficulty(TrapType::LandMine));
    assert!(disarm_difficulty(TrapType::LandMine) > 20);
}

#[test]
fn test_b_trapped() {
    let mut rng = GameRng::from_entropy();
    assert_eq!(b_trapped(false, &mut rng), ContainerTrap::NoTrap);
    let trap = b_trapped(true, &mut rng);
    assert_ne!(trap, ContainerTrap::NoTrap);
}

#[test]
fn test_chest_trap() {
    let mut rng = GameRng::from_entropy();
    let resistances = TrapResistances::default();
    let result = chest_trap(&mut rng, ContainerTrap::Poison, &resistances);
    assert!(!result.messages.is_empty());
    let result = chest_trap(&mut rng, ContainerTrap::Explosion, &resistances);
    assert!(result.contents_destroyed);
    assert!(result.damage > 0);
    let result = chest_trap(&mut rng, ContainerTrap::Summon, &resistances);
    assert!(result.summon_monsters);
}

#[test]
fn test_activate_statue_trap() {
    let mut rng = GameRng::from_entropy();
    let result = activate_statue_trap(&mut rng, Some(10), true);
    assert!(!result.triggered);
    assert!(result.monster_type.is_none());
    let result = activate_statue_trap(&mut rng, None, false);
    assert!(!result.triggered);
    assert!(result.statue_destroyed);
}

#[test]
fn test_is_statue_trap() {
    assert!(is_statue_trap(true, Some(5)));
    assert!(!is_statue_trap(false, Some(5)));
    assert!(!is_statue_trap(true, Some(-1)));
    assert!(!is_statue_trap(true, None));
}

#[test]
fn test_rndtrap() {
    let mut rng = GameRng::from_entropy();
    let level = Level::new(DLevel::new(0, 5));
    for _ in 0..10 {
        let trap_type = rndtrap(&mut rng, &level);
        assert_ne!(trap_type, TrapType::Hole);
        assert_ne!(trap_type, TrapType::MagicPortal);
    }
}

#[test]
fn test_rndtrap_gehennom() {
    let mut rng = GameRng::from_entropy();
    let level = Level::new(DLevel::new(1, 5));
    for _ in 0..20 {
        let trap_type = rndtrap(&mut rng, &level);
        assert_ne!(trap_type, TrapType::Hole);
    }
}

fn unseen(x: i8, y: i8, t: TrapType, seen: bool) -> Trap {
    Trap { x, y, trap_type: t, activated: false, seen, once: false, madeby_u: false, launch_oid: None }
}

#[test]
fn test_count_surround_traps() {
    let mut level = Level::new(DLevel::new(0, 1));
    level.traps.push(unseen(10, 10, TrapType::Pit, false));
    level.traps.push(unseen(11, 11, TrapType::BearTrap, true));
    let count = count_surround_traps(&level, 10, 10);
    assert_eq!(count, 1);
}

#[test]
fn test_count_surround_traps_multiple() {
    let mut level = Level::new(DLevel::new(0, 1));
    for x in 9..=11 {
        for y in 9..=11 {
            if (x, y) != (10, 10) {
                level.traps.push(unseen(x as i8, y as i8, TrapType::Arrow, false));
            }
        }
    }
    let count = count_surround_traps(&level, 10, 10);
    assert_eq!(count, 8);
}

#[test]
fn test_count_surround_traps_boundary() {
    let mut level = Level::new(DLevel::new(0, 1));
    level.traps.push(unseen(1, 1, TrapType::Pit, false));
    let count = count_surround_traps(&level, 1, 1);
    assert_eq!(count, 1);
    let count = count_surround_traps(&level, 2, 2);
    assert_eq!(count, 1);
}

#[test]
fn dotrap_flying_over_pit_draws_nothing() {
    let mut rng = GameRng::new(7);
    let mut trap = create_trap(3, 3, TrapType::Pit);
    let mut res = TrapResistances::default();
    res.flying = true;
    let before = rng.next_u64();
    let mut rng = GameRng::new(7);
    let r = dotrap(&mut rng, &mut trap, &res, false);
    assert_eq!(r.messages, vec!["You fly over pit.".to_string()]);
    assert_eq!(r.damage, 0);
    assert!(trap.seen && trap.activated);
    assert_eq!(rng.next_u64(), before);
}

#[test]
fn dotrap_rock_fall_reports_damage() {
    let mut rng = GameRng::new(11);
    let mut trap = create_trap(3, 3, TrapType::RockFall);
    let r = dotrap(&mut rng, &mut trap, &TrapResistances::default(), false);
    assert!(r.damage >= 2 && r.damage <= 12);
    assert_eq!(r.messages[0], "A rock falls on your head!");
    assert_eq!(r.messages[1], format!("WHANG! You suffer {} damage.", r.damage));
}

#[test]
fn dotrap_sleeping_gas_resisted() {
    let mut rng = GameRng::new(1);
    let mut trap = create_trap(3, 3, TrapType::SleepingGas);
    let mut res = TrapResistances::default();
    res.sleep_resistant = true;
    let r = dotrap(&mut rng, &mut trap, &res, false);
    assert_eq!(r.status, None);
    assert_eq!(r.messages.len(), 2);
    let mut trap = create_trap(3, 3, TrapType::SleepingGas);
    let r = dotrap(&mut rng, &mut trap, &TrapResistances::default(), false);
    assert_eq!(r.status, Some(StatusEffect::Asleep));
    assert!(r.held_turns >= 11 && r.held_turns <= 35);
}

#[test]
fn dotrap_land_mine_destroys_trap() {
    let mut rng = GameRng::new(5);
    let mut trap = create_trap(3, 3, TrapType::LandMine);
    let r = dotrap(&mut rng, &mut trap, &TrapResistances::default(), false);
    assert!(r.trap_destroyed);
    assert!(r.damage >= 4 && r.damage <= 24);
}

#[test]
fn test_resistances_from_properties_reads_each_property() {
    let r = resistances_from_properties(|p| p == Property::Flying || p == Property::MagicResistance, 14);
    assert!(r.flying);
    assert!(r.magic_resistant);
    assert!(!r.levitating);
    assert!(!r.fire_resistant);
    assert!(!r.poison_resistant);
    assert!(!r.sleep_resistant);
    assert!(!r.teleport_control);
    assert!(!r.phasing);
    assert_eq!(r.dexterity, 14);
}
