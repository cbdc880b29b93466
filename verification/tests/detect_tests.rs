use nh_core::dungeon::level::{CellType, DLevel, Level, Trap, TrapType};
use nh_core::magic::detect::{
    detect_obj_traps, do_mapping, do_vicinity_map, dosearch, dosearch0, food_detect, gold_detect,
    monster_detect, object_class_from_symbol, object_detect, reveal_terrain, sense_trap,
    trap_detect, trap_name, trapped_chest_at, use_crystal_ball, DetectResult,
};
use nh_core::monster::{Monster, MonsterId, MonsterState};
use nh_core::object::{BucStatus, Object, ObjectClass};
use nh_core::player::You;
use nh_core::rng::GameRng;

fn test_level() -> Level {
    let mut level = Level::new(DLevel::default());
    for x in 5..15 {
        for y in 3..8 {
            level.set_cell_type(x, y, CellType::Room);
        }
    }
    level.set_cell_type(4, 5, CellType::SecretDoor);
    level.set_cell_type(3, 5, CellType::SecretCorridor);
    level
}

fn test_player_at(x: i8, y: i8) -> You {
    let mut player = You::default();
    player.pos.x = x;
    player.pos.y = y;
    player
}

fn hidden_trap(x: i8, y: i8, trap_type: TrapType) -> Trap {
    Trap {
        x,
        y,
        trap_type,
        activated: false,
        seen: false,
        once: false,
        madeby_u: false,
        launch_oid: None,
    }
}

#[test]
fn test_do_mapping_reveals_level() {
    let mut level = test_level();
    assert!(!level.is_explored(7, 5));
    let result = do_mapping(&mut level);
    assert!(result.found_something);
    assert!(result.count > 0);
    assert!(level.is_explored(7, 5));
}

#[test]
fn test_do_mapping_converts_secrets() {
    let mut level = test_level();
    assert_eq!(level.cell_type(4, 5), CellType::SecretDoor);
    assert_eq!(level.cell_type(3, 5), CellType::SecretCorridor);
    do_mapping(&mut level);
    assert_eq!(level.cell_type(4, 5), CellType::Door);
    assert_eq!(level.cell_type(3, 5), CellType::Corridor);
}

#[test]
fn test_do_mapping_reveals_traps() {
    let mut level = test_level();
    level.traps.push(hidden_trap(7, 5, TrapType::Pit));
    do_mapping(&mut level);
    assert!(level.traps[0].seen);
}

#[test]
fn test_vicinity_map_reveals_nearby() {
    let mut level = test_level();
    let player = test_player_at(7, 5);
    let result = do_vicinity_map(&mut level, &player, false);
    assert!(result.found_something);
    assert!(level.is_explored(7, 5));
    assert!(level.is_explored(10, 5));
}

#[test]
fn test_vicinity_map_does_not_reveal_far() {
    let mut level = test_level();
    for x in 60..70 {
        for y in 15..20 {
            level.set_cell_type(x, y, CellType::Room);
        }
    }
    let player = test_player_at(7, 5);
    do_vicinity_map(&mut level, &player, false);
    assert!(!level.is_explored(65, 17));
}

#[test]
fn test_vicinity_map_converts_secrets_in_range() {
    let mut level = test_level();
    let player = test_player_at(5, 5);
    do_vicinity_map(&mut level, &player, false);
    assert_eq!(level.cell_type(4, 5), CellType::Door);
}

#[test]
fn test_object_detect_all() {
    let mut level = test_level();
    let mut obj = Object::default();
    obj.class = ObjectClass::Weapon;
    obj.x = 7;
    obj.y = 5;
    level.objects.push(obj);
    let result = object_detect(&mut level, None, false);
    assert!(result.found_something);
    assert_eq!(result.count, 1);
    assert!(level.is_explored(7, 5));
}

#[test]
fn test_object_detect_by_class() {
    let mut level = test_level();
    let mut weapon = Object::default();
    weapon.class = ObjectClass::Weapon;
    weapon.x = 7;
    weapon.y = 5;
    level.objects.push(weapon);
    let mut food = Object::default();
    food.class = ObjectClass::Food;
    food.x = 8;
    food.y = 5;
    level.objects.push(food);
    let result = object_detect(&mut level, Some(ObjectClass::Weapon), false);
    assert_eq!(result.count, 1);
    assert!(level.is_explored(7, 5));
    assert!(!level.is_explored(8, 5));
}

#[test]
fn test_object_detect_cursed() {
    let mut level = test_level();
    let mut obj = Object::default();
    obj.class = ObjectClass::Weapon;
    obj.x = 7;
    obj.y = 5;
    level.objects.push(obj);
    let result = object_detect(&mut level, None, true);
    assert!(!result.found_something);
}

#[test]
fn test_object_detect_empty_level() {
    let mut level = test_level();
    let result = object_detect(&mut level, None, false);
    assert!(!result.found_something);
    assert_eq!(result.count, 0);
}

#[test]
fn test_gold_detect_coins() {
    let mut level = test_level();
    let mut gold = Object::default();
    gold.class = ObjectClass::Coin;
    gold.x = 7;
    gold.y = 5;
    level.objects.push(gold);
    let result = gold_detect(&mut level, false, false);
    assert!(result.found_something);
    assert_eq!(result.count, 1);
}

#[test]
fn test_gold_detect_cursed() {
    let mut level = test_level();
    let mut gold = Object::default();
    gold.class = ObjectClass::Coin;
    gold.x = 7;
    gold.y = 5;
    level.objects.push(gold);
    let result = gold_detect(&mut level, false, true);
    assert!(!result.found_something);
}

#[test]
fn test_food_detect() {
    let mut level = test_level();
    let mut food = Object::default();
    food.class = ObjectClass::Food;
    food.x = 7;
    food.y = 5;
    level.objects.push(food);
    let result = food_detect(&mut level, false, false);
    assert!(result.found_something);
    assert_eq!(result.count, 1);
}

#[test]
fn test_food_detect_cursed_finds_potions() {
    let mut level = test_level();
    let mut potion = Object::default();
    potion.class = ObjectClass::Potion;
    potion.x = 7;
    potion.y = 5;
    level.objects.push(potion);
    let mut food = Object::default();
    food.class = ObjectClass::Food;
    food.x = 8;
    food.y = 5;
    level.objects.push(food);
    let result = food_detect(&mut level, false, true);
    assert!(result.found_something);
    assert_eq!(result.count, 1);
    assert!(level.is_explored(7, 5));
    assert!(!level.is_explored(8, 5));
}

#[test]
fn test_monster_detect() {
    let mut level = test_level();
    let mon = Monster::new(MonsterId(0), 0, 7, 5);
    level.add_monster(mon);
    let mut rng = GameRng::new(42);
    let result = monster_detect(&mut level, None, false, &mut rng);
    assert!(result.found_something);
    assert_eq!(result.count, 1);
}

#[test]
fn test_monster_detect_cursed_wakes() {
    let mut level = test_level();
    let mut mon = Monster::new(MonsterId(0), 0, 7, 5);
    mon.state = MonsterState::default();
    mon.state.sleeping = true;
    mon.state.can_move = true;
    level.add_monster(mon);
    let mut rng = GameRng::new(42);
    for _ in 0..20 {
        let _ = monster_detect(&mut level, None, true, &mut rng);
    }
}

#[test]
fn test_trap_detect() {
    let mut level = test_level();
    level.traps.push(hidden_trap(7, 5, TrapType::Pit));
    level.traps.push(hidden_trap(8, 5, TrapType::Arrow));
    let result = trap_detect(&mut level, false);
    assert!(result.found_something);
    assert_eq!(result.count, 2);
    assert!(level.traps[0].seen);
    assert!(level.traps[1].seen);
}

#[test]
fn test_trap_detect_cursed() {
    let mut level = test_level();
    level.traps.push(hidden_trap(7, 5, TrapType::Pit));
    let result = trap_detect(&mut level, true);
    assert!(!result.found_something);
    assert!(!level.traps[0].seen);
}

#[test]
fn test_dosearch_finds_secret_door() {
    let mut level = test_level();
    let player = test_player_at(5, 5);
    let mut rng = GameRng::new(42);
    let mut found = false;
    for _ in 0..50 {
        let result = dosearch0(&mut level, &player, 5, false, &mut rng);
        if result.found_something {
            found = true;
            break;
        }
    }
    assert!(found, "should find secret door after many searches");
    assert_eq!(level.cell_type(4, 5), CellType::Door);
}

#[test]
fn test_dosearch_finds_hidden_trap() {
    let mut level = test_level();
    let player = test_player_at(7, 5);
    level.traps.push(hidden_trap(8, 5, TrapType::BearTrap));
    let mut rng = GameRng::new(42);
    let mut found = false;
    for _ in 0..100 {
        let result = dosearch0(&mut level, &player, 0, false, &mut rng);
        if level.traps[0].seen {
            found = true;
            break;
        }
        let _ = result;
    }
    assert!(found, "should find hidden trap after many searches");
}

#[test]
fn test_dosearch_nothing_found() {
    let mut level = Level::new(DLevel::default());
    for x in 5..10 {
        for y in 5..10 {
            level.set_cell_type(x, y, CellType::Room);
        }
    }
    let player = test_player_at(7, 7);
    let mut rng = GameRng::new(42);
    let result = dosearch0(&mut level, &player, 0, false, &mut rng);
    assert!(!result.found_something);
}

#[test]
fn test_trap_names() {
    assert_eq!(trap_name(TrapType::Pit), "pit");
    assert_eq!(trap_name(TrapType::Arrow), "arrow trap");
    assert_eq!(trap_name(TrapType::Web), "web");
    assert_eq!(trap_name(TrapType::Polymorph), "polymorph trap");
}

#[test]
fn test_object_class_from_symbol() {
    assert_eq!(object_class_from_symbol(')'), Some(ObjectClass::Weapon));
    assert_eq!(object_class_from_symbol('['), Some(ObjectClass::Armor));
    assert_eq!(object_class_from_symbol('$'), Some(ObjectClass::Coin));
    assert_eq!(object_class_from_symbol('z'), None);
}

#[test]
fn test_crystal_ball_no_charges() {
    let mut level = test_level();
    let player = test_player_at(7, 5);
    let mut ball = Object::default();
    ball.enchantment = 0;
    let mut rng = GameRng::new(42);
    let result = use_crystal_ball(&mut level, &player, &ball, '^', &mut rng);
    assert!(!result.charge_used);
    assert!(result.messages[0].contains("dark"));
}

#[test]
fn test_crystal_ball_detect_traps() {
    let mut level = test_level();
    level.traps.push(hidden_trap(7, 5, TrapType::Pit));
    let player = test_player_at(7, 5);
    let mut ball = Object::default();
    ball.enchantment = 3;
    let mut rng = GameRng::new(42);
    let result = use_crystal_ball(&mut level, &player, &ball, '^', &mut rng);
    assert!(result.charge_used);
    assert!(level.traps[0].seen);
}

#[test]
fn test_crystal_ball_detect_objects() {
    let mut level = test_level();
    let mut weapon = Object::default();
    weapon.class = ObjectClass::Weapon;
    weapon.x = 7;
    weapon.y = 5;
    level.objects.push(weapon);
    let player = test_player_at(10, 5);
    let mut ball = Object::default();
    ball.enchantment = 3;
    let mut rng = GameRng::new(42);
    let result = use_crystal_ball(&mut level, &player, &ball, ')', &mut rng);
    assert!(result.charge_used);
    assert!(level.is_explored(7, 5));
}

#[test]
fn test_detect_messages_and_counts_exact() {
    let mut level = test_level();
    let r = do_mapping(&mut level);
    // two secrets, fifty room cells plus the two found cells
    assert_eq!(r.count, 2 + 50 + 2);
    assert_eq!(r.messages, vec!["A map coalesces in your mind!".to_string()]);
    let mut empty = Level::new(DLevel::default());
    let r = trap_detect(&mut empty, false);
    assert_eq!(r.messages, vec!["You sense no traps.".to_string()]);
    let r = reveal_terrain(&mut empty, false);
    assert!(!r.found_something);
    let r = reveal_terrain(&mut empty, true);
    assert_eq!(r.count, 79 * 21);
    assert!(empty.get_cell(1, 0).explored);
    assert!(!empty.get_cell(0, 0).explored);
    let d = DetectResult::nothing("a").with_message("b");
    assert_eq!(d.messages.len(), 2);
    assert_eq!(sense_trap(TrapType::AntiMagic), "an anti-magic field");
    assert_eq!(sense_trap(TrapType::Pit), "a pit");
}

#[test]
fn test_search_and_crystal_ball_edges() {
    let mut level = test_level();
    let player = test_player_at(5, 5);
    let mut rng = GameRng::new(1);
    let r = dosearch0(&mut level, &player, 0, true, &mut rng);
    for m in r.messages.iter() {
        assert!(m == "You find a hidden door!" || m == "You search but find nothing.");
    }
    let mut rng = GameRng::new(7);
    let _ = dosearch(&mut level, &player, &mut rng);
    let mut chest = Object::default();
    chest.container = true;
    chest.trapped = true;
    let (n, msgs) = detect_obj_traps(&[chest, Object::default()], true);
    assert_eq!(n, 1);
    assert_eq!(msgs, vec!["the item is trapped!".to_string()]);
    assert!(trapped_chest_at(&[chest]));
    assert!(!trapped_chest_at(&[Object::default()]));
    let mut cursed_ball = Object::default();
    cursed_ball.enchantment = 2;
    cursed_ball.buc = BucStatus::Cursed;
    let mut exploded = false;
    for seed in 0..40 {
        let mut rng = GameRng::new(seed);
        let mut l = Level::new(DLevel::default());
        let r = use_crystal_ball(&mut l, &player, &cursed_ball, 'x', &mut rng);
        if r.ball_broken {
            exploded = true;
            assert!(r.damage >= 3 && r.damage <= 18);
        } else {
            assert!(r.charge_used);
            assert_eq!(r.messages.len(), 1);
        }
    }
    assert!(exploded);
}
