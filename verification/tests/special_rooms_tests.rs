use nh_core::dungeon::level::{CellType, DLevel, Level, Room, RoomType, TrapType};
use nh_core::dungeon::special_rooms::{
    anthole_monster, beehive_monster, court_monster, create_altar, fill_zoo, fumaroles, is_vault,
    make_grave, make_niches, mkaltar, mkfount, mkgrave, mineralize, mkshop, mksink, mkswamp,
    mktemple, mkzoo, morgue_monster, needs_population, populate_special_room, populate_vault,
    squad_monster, swamp_monster, SpecialMonsterClass,
};
use nh_core::object::ObjectClass;
use nh_core::rng::GameRng;

fn carve(level: &mut Level, room: &Room) {
    for x in room.x..room.x + room.width {
        for y in room.y..room.y + room.height {
            level.set_cell_type(x, y, CellType::Room);
            level.set_lit(x, y, true);
        }
    }
}

#[test]
fn test_court_monster_distribution() {
    let mut rng = GameRng::new(42);
    let mut kobolds = 0;
    let mut dragons = 0;

    for _ in 0..1000 {
        match court_monster(&mut rng, 5) {
            SpecialMonsterClass::Kobold => kobolds += 1,
            SpecialMonsterClass::Dragon => dragons += 1,
            _ => {}
        }
    }

    println!("Low diff - Kobolds: {}, Dragons: {}", kobolds, dragons);
    assert!(kobolds > dragons, "Kobolds should be more common at low difficulty");

    kobolds = 0;
    dragons = 0;
    for _ in 0..1000 {
        match court_monster(&mut rng, 25) {
            SpecialMonsterClass::Kobold => kobolds += 1,
            SpecialMonsterClass::Dragon => dragons += 1,
            _ => {}
        }
    }

    println!("High diff - Kobolds: {}, Dragons: {}", kobolds, dragons);
}

#[test]
fn test_morgue_monster_distribution() {
    let mut rng = GameRng::new(42);
    let mut ghosts = 0;
    let mut wraiths = 0;
    let mut zombies = 0;

    for _ in 0..1000 {
        match morgue_monster(&mut rng, 5) {
            SpecialMonsterClass::GhostClass => ghosts += 1,
            SpecialMonsterClass::Wraith => wraiths += 1,
            SpecialMonsterClass::Zombie => zombies += 1,
            _ => {}
        }
    }

    println!(
        "Morgue distribution - Ghosts: {}, Wraiths: {}, Zombies: {}",
        ghosts, wraiths, zombies
    );

    assert!(zombies > ghosts, "Zombies should be most common");
    assert!(zombies > wraiths, "Zombies should be more common than wraiths");

    let diff = (ghosts as i32 - wraiths as i32).abs();
    assert!(diff < 100, "Ghosts and wraiths should be roughly equal");
}

#[test]
fn test_squad_monster_distribution() {
    let mut rng = GameRng::new(42);
    let mut soldiers = 0;
    let mut sergeants = 0;
    let mut lieutenants = 0;
    let mut captains = 0;

    for _ in 0..1000 {
        match squad_monster(&mut rng, 10) {
            SpecialMonsterClass::Soldier => soldiers += 1,
            SpecialMonsterClass::Sergeant => sergeants += 1,
            SpecialMonsterClass::Lieutenant => lieutenants += 1,
            SpecialMonsterClass::Captain => captains += 1,
            _ => {}
        }
    }

    println!(
        "Squad distribution - Soldiers: {}, Sergeants: {}, Lieutenants: {}, Captains: {}",
        soldiers, sergeants, lieutenants, captains
    );

    assert!(soldiers > sergeants, "Soldiers should be most common");
    assert!(soldiers > lieutenants, "Soldiers should be more common than lieutenants");
    assert!(soldiers > captains, "Soldiers should be more common than captains");
}

#[test]
fn test_beehive_monster() {
    assert_eq!(beehive_monster(true), SpecialMonsterClass::QueenBee);
    assert_eq!(beehive_monster(false), SpecialMonsterClass::KillerBee);
}

#[test]
fn test_anthole_deterministic() {
    let ant1 = anthole_monster(42, 10);
    let ant2 = anthole_monster(42, 10);
    assert_eq!(ant1, ant2);

    let ant3 = anthole_monster(43, 10);
    let ant4 = anthole_monster(44, 10);
    assert!(
        ant1 != ant3 || ant1 != ant4 || ant3 != ant4,
        "Different seeds should produce variety"
    );
}

#[test]
fn test_special_monster_class_name() {
    assert_eq!(SpecialMonsterClass::Dragon.name(), "dragon");
    assert_eq!(SpecialMonsterClass::QueenBee.name(), "queen bee");
    assert_eq!(SpecialMonsterClass::Soldier.name(), "soldier");
}

#[test]
fn test_needs_population() {
    assert!(needs_population(RoomType::Court));
    assert!(needs_population(RoomType::Morgue));
    assert!(needs_population(RoomType::Zoo));
    assert!(!needs_population(RoomType::Ordinary));
    assert!(!needs_population(RoomType::Vault));
    assert!(!needs_population(RoomType::GeneralShop));
}

#[test]
fn test_is_vault() {
    assert!(is_vault(RoomType::Vault));
    assert!(!is_vault(RoomType::Ordinary));
    assert!(!is_vault(RoomType::Court));
    assert!(!is_vault(RoomType::GeneralShop));
}

#[test]
fn test_populate_vault() {
    let mut rng = GameRng::new(42);
    let dlevel = DLevel {
        dungeon_num: 0,
        level_num: 10,
    };
    let mut level = Level::new(dlevel);

    let room = Room::with_type(10, 5, 2, 2, RoomType::Vault);
    carve(&mut level, &room);

    populate_vault(&mut level, &room, &mut rng);

    assert!(!level.objects.is_empty(), "Vault should have gold piles");
    assert!(
        level.objects.iter().all(|obj| obj.class == ObjectClass::Coin),
        "Vault should only have gold"
    );

    for x in room.x..room.x + room.width {
        for y in room.y..room.y + room.height {
            assert!(!level.get_cell(x, y).lit, "Vault should be unlit");
        }
    }

    println!(
        "Vault has {} gold piles, total value: {}",
        level.objects.len(),
        level.objects.iter().map(|o| o.quantity).sum::<i32>()
    );
}

#[test]
fn test_vault_gold_per_cell_in_range() {
    let mut rng = GameRng::new(7);
    let mut level = Level::new(DLevel::new(0, 3));
    let room = Room::with_type(10, 5, 3, 2, RoomType::Vault);
    carve(&mut level, &room);
    populate_vault(&mut level, &room, &mut rng);
    assert_eq!(level.objects.len(), 6);
    for o in level.objects.iter() {
        assert!(o.quantity >= 50 && o.quantity <= 1500);
    }
    for t in level.traps.iter() {
        assert_eq!(t.trap_type, TrapType::Teleport);
    }
}

#[test]
fn test_beehive_room_has_queen_in_center_or_bees() {
    let mut rng = GameRng::new(3);
    let mut level = Level::new(DLevel::new(0, 5));
    let room = Room::with_type(20, 5, 5, 5, RoomType::Beehive);
    carve(&mut level, &room);
    populate_special_room(&mut level, &room, &mut rng);
    assert!(!level.monsters.is_empty());
    for m in level.monsters.iter() {
        assert!(m.state.sleeping);
        let in_room = (m.x as usize) >= room.x && (m.x as usize) < room.x + room.width
            && (m.y as usize) >= room.y && (m.y as usize) < room.y + room.height;
        assert!(in_room);
        if m.x == 22 && m.y == 7 {
            assert_eq!(m.name, "queen bee");
        } else {
            assert_eq!(m.name, "killer bee");
        }
    }
}

#[test]
fn test_court_gets_throne_in_center() {
    let mut rng = GameRng::new(11);
    let mut level = Level::new(DLevel::new(0, 4));
    let room = Room::with_type(30, 6, 4, 3, RoomType::Court);
    carve(&mut level, &room);
    populate_special_room(&mut level, &room, &mut rng);
    assert_eq!(level.cell_type(32, 7), CellType::Throne);
}

#[test]
fn test_temple_altar_and_priest() {
    let mut rng = GameRng::new(5);
    let mut level = Level::new(DLevel::new(0, 4));
    let room = Room::with_type(30, 6, 3, 3, RoomType::Temple);
    carve(&mut level, &room);
    populate_special_room(&mut level, &room, &mut rng);
    assert_eq!(level.cell_type(31, 7), CellType::Altar);
    assert_eq!(level.monsters.len(), 1);
    assert_eq!((level.monsters[0].x, level.monsters[0].y), (30, 7));
    assert!(level.monsters[0].state.peaceful);
    assert_eq!(level.monsters[0].name, "priest");
}

#[test]
fn test_swamp_checkerboard() {
    let mut rng = GameRng::new(9);
    let mut level = Level::new(DLevel::new(0, 4));
    let mut room = Room::with_type(10, 4, 4, 4, RoomType::Ordinary);
    carve(&mut level, &room);
    mkswamp(&mut level, &mut room, &mut rng);
    assert_eq!(room.room_type, RoomType::Swamp);
    for x in 10..14 {
        for y in 4..8 {
            let expected = if (x + y) % 2 == 0 { CellType::Pool } else { CellType::Room };
            assert_eq!(level.cell_type(x, y), expected);
        }
    }
}

#[test]
fn test_swamp_monster_kinds() {
    let mut rng = GameRng::new(1);
    for _ in 0..100 {
        let c = swamp_monster(&mut rng);
        assert!(matches!(
            c,
            SpecialMonsterClass::GiantEel | SpecialMonsterClass::Piranha | SpecialMonsterClass::ElectricEel
        ));
    }
}

#[test]
fn test_feature_placement_needs_floor() {
    let mut rng = GameRng::new(2);
    let mut level = Level::new(DLevel::new(0, 1));
    assert!(!mkfount(&mut level, false, 5, 5, &mut rng));
    assert!(!mksink(&mut level, 5, 5));
    assert!(!mkaltar(&mut level, 5, 5, 1));
    assert!(!mkgrave(&mut level, 5, 5));
    assert_eq!(level.cell_type(5, 5), CellType::Stone);

    level.set_cell_type(5, 5, CellType::Room);
    assert!(mksink(&mut level, 5, 5));
    assert_eq!(level.cell_type(5, 5), CellType::Sink);

    level.set_cell_type(6, 5, CellType::Corridor);
    assert!(mkfount(&mut level, false, 6, 5, &mut rng));
    assert_eq!(level.cell_type(6, 5), CellType::Fountain);
    assert!(level.traps.is_empty());

    level.set_cell_type(7, 5, CellType::Room);
    assert!(mkaltar(&mut level, 7, 5, -1));
    assert_eq!(level.cell_type(7, 5), CellType::Altar);
    assert_eq!(level.get_cell(7, 5).flags, 3);

    level.set_cell_type(8, 5, CellType::Room);
    assert!(mkaltar(&mut level, 8, 5, 0));
    assert_eq!(level.get_cell(8, 5).flags, 2);

    level.set_cell_type(9, 5, CellType::Room);
    assert!(mkaltar(&mut level, 9, 5, 1));
    assert_eq!(level.get_cell(9, 5).flags, 1);
}

#[test]
fn test_make_grave_gold() {
    let mut level = Level::new(DLevel::new(0, 1));
    level.set_cell_type(5, 5, CellType::Room);
    let mut rng = GameRng::new(4);
    assert!(make_grave(&mut level, 5, 5, &mut rng));
    assert_eq!(level.cell_type(5, 5), CellType::Grave);
    for o in level.objects.iter() {
        assert_eq!(o.class, ObjectClass::Coin);
        assert!(o.quantity >= 10 && o.quantity < 60);
        assert_eq!((o.x, o.y), (5, 5));
    }
    assert!(!make_grave(&mut level, 5, 5, &mut rng));
}

#[test]
fn test_create_altar_in_room() {
    let mut level = Level::new(DLevel::new(0, 1));
    let room = Room::with_type(10, 5, 3, 3, RoomType::Ordinary);
    carve(&mut level, &room);
    let mut rng = GameRng::new(8);
    assert!(create_altar(&mut level, &room, &mut rng));
    let mut altars = 0;
    for x in 10..13 {
        for y in 5..8 {
            if level.cell_type(x, y) == CellType::Altar {
                altars += 1;
                assert!(matches!(level.get_cell(x, y).flags, 1 | 2 | 3));
            }
        }
    }
    assert_eq!(altars, 1);
}

#[test]
fn test_shop_rejects_non_shop() {
    let mut level = Level::new(DLevel::new(0, 1));
    let mut room = Room::with_type(10, 5, 4, 4, RoomType::Ordinary);
    carve(&mut level, &room);
    let mut rng = GameRng::new(8);
    assert!(!mkshop(&mut level, &mut room, RoomType::Zoo, &mut rng));
    assert_eq!(room.room_type, RoomType::Ordinary);
    assert!(level.monsters.is_empty());
}

#[test]
fn test_shop_keeper_and_goods() {
    let mut level = Level::new(DLevel::new(0, 1));
    let mut room = Room::with_type(10, 5, 4, 4, RoomType::Ordinary);
    carve(&mut level, &room);
    let mut rng = GameRng::new(8);
    assert!(mkshop(&mut level, &mut room, RoomType::WandShop, &mut rng));
    assert_eq!(room.room_type, RoomType::WandShop);
    assert_eq!(level.monsters.len(), 1);
    assert_eq!(level.monsters[0].name, "shopkeeper");
    assert_eq!((level.monsters[0].x, level.monsters[0].y), (11, 5));
    assert!(level.monsters[0].state.peaceful);
    for o in level.objects.iter() {
        assert_eq!(o.class, ObjectClass::Wand);
        assert!(!(o.x == 11 && o.y == 5));
    }
}

#[test]
fn test_temple_and_zoo_makers() {
    let mut level = Level::new(DLevel::new(0, 1));
    let mut room = Room::with_type(10, 5, 3, 3, RoomType::Ordinary);
    carve(&mut level, &room);
    let mut rng = GameRng::new(8);
    mktemple(&mut level, &mut room, 0, &mut rng);
    assert_eq!(room.room_type, RoomType::Temple);
    assert_eq!(level.cell_type(11, 6), CellType::Altar);
    assert_eq!(level.get_cell(11, 6).flags, 2);

    let mut level2 = Level::new(DLevel::new(0, 1));
    let mut zoo = Room::with_type(10, 5, 5, 4, RoomType::Ordinary);
    carve(&mut level2, &zoo);
    level2.set_lit(12, 6, false);
    mkzoo(&mut level2, &mut zoo, &mut rng);
    assert_eq!(zoo.room_type, RoomType::Zoo);
    assert!(level2.get_cell(12, 6).lit);
    for o in level2.objects.iter() {
        assert_eq!(o.class, ObjectClass::Food);
    }
    let mut level3 = Level::new(DLevel::new(0, 1));
    carve(&mut level3, &zoo);
    fill_zoo(&mut level3, &zoo, &mut rng);
    for m in level3.monsters.iter() {
        assert!(m.state.sleeping);
        assert_eq!(m.name, "monster");
    }
}

#[test]
fn test_niches_fumaroles_minerals() {
    let mut level = Level::new(DLevel::new(0, 12));
    let room = Room::with_type(10, 5, 4, 4, RoomType::Ordinary);
    carve(&mut level, &room);
    for x in 9..15 {
        level.set_cell_type(x, 4, CellType::HWall);
        level.set_cell_type(x, 9, CellType::HWall);
    }
    for y in 5..9 {
        level.set_cell_type(9, y, CellType::VWall);
        level.set_cell_type(14, y, CellType::VWall);
    }
    let mut rng = GameRng::new(21);
    make_niches(&mut level, &room, &mut rng);
    let mut niches = 0;
    for x in 10..14 {
        if level.cell_type(x, 4) == CellType::Room {
            niches += 1;
        }
        if level.cell_type(x, 9) == CellType::Room {
            niches += 1;
        }
    }
    for y in 5..9 {
        if level.cell_type(9, y) == CellType::Room {
            niches += 1;
        }
        if level.cell_type(14, y) == CellType::Room {
            niches += 1;
        }
    }
    assert!(niches >= 1);

    fumaroles(&mut level, &room, &mut rng);
    let mut lava = 0;
    for x in 10..14 {
        for y in 5..9 {
            if level.cell_type(x, y) == CellType::Lava {
                lava += 1;
            }
        }
    }
    assert!(lava >= 1 && lava <= 5);

    mineralize(&mut level, &mut rng);
    for o in level.objects.iter() {
        let t = level.cell_type(o.x as usize, o.y as usize);
        assert!(t.is_wall());
        assert!(o.class == ObjectClass::Coin || o.class == ObjectClass::Gem);
    }
}

#[test]
fn test_zoo_and_vault_follow_the_seed() {
    let zoo = Room::with_type(10, 5, 6, 4, RoomType::Zoo);
    let mut a = Level::new(DLevel::new(0, 3));
    carve(&mut a, &zoo);
    let mut b = Level::new(DLevel::new(0, 3));
    carve(&mut b, &zoo);
    let mut ra = GameRng::new(99);
    let mut rb = GameRng::new(99);
    fill_zoo(&mut a, &zoo, &mut ra);
    fill_zoo(&mut b, &zoo, &mut rb);
    assert_eq!(a.monsters.len(), b.monsters.len());
    assert_eq!(a.objects.len(), b.objects.len());
    for (m, n) in a.monsters.iter().zip(b.monsters.iter()) {
        assert_eq!((m.x, m.y, m.hp), (n.x, n.y, n.hp));
    }
    assert_eq!(ra.next_u64(), rb.next_u64());
    for o in a.objects.iter() {
        assert!(a.monsters.iter().any(|m| m.x == o.x && m.y == o.y));
    }

    let vault = Room::with_type(20, 5, 2, 2, RoomType::Vault);
    let mut v = Level::new(DLevel::new(0, 4));
    carve(&mut v, &vault);
    let mut rv = GameRng::new(5);
    populate_vault(&mut v, &vault, &mut rv);
    assert_eq!(v.objects.len(), 4);
    for o in v.objects.iter() {
        assert_eq!(o.class, ObjectClass::Coin);
        assert!(o.quantity >= 200 && o.quantity <= 2000);
    }
    assert!(v.traps.len() <= 1);
}
