use nh_core::dungeon::level::{CellType, DLevel, Level};
use nh_core::dungeon::topology::{
    br_string, br_string2, dungeon_alignment, dungeon_index, format_dungeon_info, get_branch_by_id,
    has_branch_from_level, init_dungeons, is_hellish, is_in_main_dungeon, is_main_dungeon,
    is_maze_like, is_town, level_in_hellish_dungeon, levels_connected, mk_knox_portal, mkportal,
    next_portal, num_branches, numdungeons, parent_level, place_lregion, print_branch_info,
    print_dungeon, put_lregion_here, BranchType, Dungeon, DungeonId, DungeonSystem, LRegionArea,
    LRegionType,
};
use nh_core::rng::GameRng;

#[test]
fn test_dungeon_system_creation() {
    let system = DungeonSystem::new();
    assert_eq!(system.dungeons.len(), 8);
    assert_eq!(system.branches.len(), 7);
}

#[test]
fn test_branch_lookup() {
    let system = DungeonSystem::new();
    let branch = system.get_branch_from(&DLevel::new(0, 3));
    assert!(branch.is_some());
    assert_eq!(branch.unwrap().end2, DLevel::new(2, 1));
    assert!(system.get_branch_from(&DLevel::new(0, 1)).is_none());
}

#[test]
fn test_dungeon_id() {
    assert_eq!(DungeonId::MainDungeon.number(), 0);
    assert_eq!(DungeonId::Gehennom.number(), 1);
    assert_eq!(DungeonId::Mines.number(), 2);
    assert_eq!(DungeonId::from_number(0), Some(DungeonId::MainDungeon));
    assert_eq!(DungeonId::from_number(99), None);
}

#[test]
fn test_maze_dungeon_check() {
    let system = DungeonSystem::new();
    assert!(system.is_maze_dungeon(&DLevel::new(1, 5)));
    assert!(!system.is_maze_dungeon(&DLevel::new(0, 5)));
    assert!(system.is_maze_dungeon(&DLevel::new(7, 1)));
}

#[test]
fn test_dungeon_names() {
    let system = DungeonSystem::new();
    assert_eq!(system.dungeon_name(&DLevel::new(0, 1)), "The Dungeons of Doom");
    assert_eq!(system.dungeon_name(&DLevel::new(1, 1)), "Gehennom");
    assert_eq!(system.dungeon_name(&DLevel::new(2, 1)), "The Gnomish Mines");
    assert_eq!(system.dungeon_name(&DLevel::new(3, 1)), "Sokoban");
}

#[test]
fn test_init_dungeons() {
    let system = init_dungeons();
    assert_eq!(system.dungeons.len(), 8);
    assert_eq!(system.branches.len(), 7);
}

#[test]
fn test_is_main_dungeon_const() {
    assert!(is_main_dungeon(0));
    assert!(!is_main_dungeon(1));
    assert!(!is_main_dungeon(2));
    assert!(!is_main_dungeon(99));
}

#[test]
fn test_is_in_main_dungeon() {
    assert!(is_in_main_dungeon(&DLevel::new(0, 1)));
    assert!(is_in_main_dungeon(&DLevel::new(0, 29)));
    assert!(!is_in_main_dungeon(&DLevel::new(1, 1)));
    assert!(!is_in_main_dungeon(&DLevel::new(2, 1)));
}

#[test]
fn test_br_string() {
    assert_eq!(br_string(BranchType::Stairs), "stairs");
    assert_eq!(br_string(BranchType::NoEnd1), "no-connection-1");
    assert_eq!(br_string(BranchType::NoEnd2), "no-connection-2");
    assert_eq!(br_string(BranchType::Portal), "portal");
}

#[test]
fn test_br_string2() {
    let system = DungeonSystem::new();
    let mines_branch = system.get_branch_from(&DLevel::new(0, 3)).unwrap();
    let desc = br_string2(mines_branch);
    assert!(desc.contains("stairs"));
    assert!(desc.contains("down"));
    let sokoban_branch = system.get_branch_from(&DLevel::new(0, 7)).unwrap();
    let desc = br_string2(sokoban_branch);
    assert!(desc.contains("stairs"));
    assert!(desc.contains("up"));
    let quest_branch = system.get_branch_from(&DLevel::new(0, 14)).unwrap();
    let desc = br_string2(quest_branch);
    assert_eq!(desc, "magic portal");
}

#[test]
fn test_is_hellish() {
    let system = DungeonSystem::new();
    assert!(is_hellish(&system, 1));
    assert!(!is_hellish(&system, 0));
    assert!(!is_hellish(&system, 99));
}

#[test]
fn test_level_in_hellish_dungeon() {
    let system = DungeonSystem::new();
    assert!(level_in_hellish_dungeon(&system, &DLevel::new(1, 1)));
    assert!(level_in_hellish_dungeon(&system, &DLevel::new(1, 10)));
    assert!(!level_in_hellish_dungeon(&system, &DLevel::new(0, 5)));
    assert!(!level_in_hellish_dungeon(&system, &DLevel::new(2, 1)));
}

#[test]
fn test_is_maze_like() {
    let system = DungeonSystem::new();
    assert!(is_maze_like(&system, 7));
    assert!(!is_maze_like(&system, 0));
    assert!(!is_maze_like(&system, 1));
    assert!(!is_maze_like(&system, 99));
}

#[test]
fn test_is_town() {
    let system = DungeonSystem::new();
    assert!(!is_town(&system, 0));
    assert!(!is_town(&system, 1));
    assert!(!is_town(&system, 7));
    assert!(!is_town(&system, 99));
}

#[test]
fn test_numdungeons() {
    let system = DungeonSystem::new();
    assert_eq!(numdungeons(&system), 8);
}

#[test]
fn test_num_branches() {
    let system = DungeonSystem::new();
    assert_eq!(num_branches(&system), 7);
}

#[test]
fn test_get_branch_by_id() {
    let system = DungeonSystem::new();
    let knox_branch = get_branch_by_id(&system, 4);
    assert!(knox_branch.is_some());
    assert_eq!(knox_branch.unwrap().id, 4);
    assert!(get_branch_by_id(&system, 999).is_none());
}

#[test]
fn test_levels_connected() {
    let system = DungeonSystem::new();
    assert!(levels_connected(&system, &DLevel::new(0, 3), &DLevel::new(2, 1)));
    assert!(levels_connected(&system, &DLevel::new(2, 1), &DLevel::new(0, 3)));
    assert!(!levels_connected(&system, &DLevel::new(0, 1), &DLevel::new(2, 1)));
}

#[test]
fn test_mkportal() {
    let system = DungeonSystem::new();
    assert_eq!(mkportal(&system, &DLevel::new(0, 14)), Some(DLevel::new(4, 1)));
    assert_eq!(mkportal(&system, &DLevel::new(0, 12)), Some(DLevel::new(5, 1)));
    assert_eq!(mkportal(&system, &DLevel::new(1, 20)), Some(DLevel::new(7, 1)));
    assert_eq!(mkportal(&system, &DLevel::new(0, 1)), None);
}

#[test]
fn test_next_portal() {
    let system = DungeonSystem::new();
    assert_eq!(next_portal(&system, &DLevel::new(0, 14)), mkportal(&system, &DLevel::new(0, 14)));
}

#[test]
fn test_mk_knox_portal() {
    let system = DungeonSystem::new();
    let knox = mk_knox_portal(&system);
    assert!(knox.is_some());
    let knox = knox.unwrap();
    assert_eq!(knox.id, 4);
    assert_eq!(knox.branch_type, BranchType::Portal);
    assert_eq!(knox.end2, DLevel::new(5, 1));
}

#[test]
fn test_parent_level() {
    let system = DungeonSystem::new();
    assert_eq!(parent_level(&system, &DLevel::new(2, 1)), Some(DLevel::new(0, 3)));
    assert_eq!(parent_level(&system, &DLevel::new(3, 1)), Some(DLevel::new(0, 7)));
    assert_eq!(parent_level(&system, &DLevel::new(0, 3)), None);
}

#[test]
fn test_has_branch_from_level() {
    let system = DungeonSystem::new();
    assert!(has_branch_from_level(&system, &DLevel::new(0, 3)));
    assert!(has_branch_from_level(&system, &DLevel::new(0, 7)));
    assert!(!has_branch_from_level(&system, &DLevel::new(0, 1)));
    assert!(!has_branch_from_level(&system, &DLevel::new(2, 1)));
}

#[test]
fn test_dungeon_index() {
    assert_eq!(dungeon_index(0), Some(0));
    assert_eq!(dungeon_index(1), Some(1));
    assert_eq!(dungeon_index(7), Some(7));
    assert_eq!(dungeon_index(-1), None);
    assert_eq!(dungeon_index(8), None);
    assert_eq!(dungeon_index(99), None);
}

#[test]
fn test_dungeon_alignment() {
    let system = DungeonSystem::new();
    assert_eq!(dungeon_alignment(&system, 0), 0);
    assert_eq!(dungeon_alignment(&system, 1), 0);
    assert_eq!(dungeon_alignment(&system, 7), 0);
    assert_eq!(dungeon_alignment(&system, 99), 0);
}

#[test]
fn test_print_dungeon() {
    let system = DungeonSystem::new();
    let output = print_dungeon(&system, false);
    assert!(output.contains("Dungeon Topology"));
    assert!(output.contains("The Dungeons of Doom"));
    assert!(output.contains("Gehennom"));
    let output_with_branches = print_dungeon(&system, true);
    assert!(output_with_branches.contains("stairs"));
}

#[test]
fn print_dungeon_exact_lines() {
    let system = DungeonSystem::new();
    let output = print_dungeon(&system, true);
    assert!(output.starts_with("=== Dungeon Topology ===\n\nThe Dungeons of Doom: levels 1 to 29\n"));
    assert!(output.contains("  stairs (down) at level 3 -> The Gnomish Mines level 1\n"));
    assert!(output.contains("Gehennom: levels 30 to 49 [hellish]\n"));
    assert!(output.contains("The Gnomish Mines: levels 2 to 9, entrance on level 3\n"));
    assert!(output.contains("Sokoban: levels 6 to 9, entrance from below\n"));
    assert!(output.contains("Fort Ludios: levels 18\n"));
}

#[test]
fn test_format_dungeon_info() {
    let dungeon = Dungeon::gehennom();
    let info = format_dungeon_info(&dungeon);
    assert!(info.contains("Gehennom"));
    assert!(info.contains("Hellish"));
    assert_eq!(info, "Gehennom (20 levels, depth 30+) [Hellish]");
}

#[test]
fn test_print_branch_info() {
    let system = DungeonSystem::new();
    let info = print_branch_info(&system, 0);
    assert!(info.is_some());
    let info_str = info.unwrap();
    assert!(info_str.contains("Branch 0"));
    assert_eq!(info_str, "Branch 0: The Dungeons of Doom level 3 -> The Gnomish Mines level 1 (stairs (down))");
    assert!(print_branch_info(&system, 999).is_none());
}

#[test]
fn test_lregion_area() {
    let area = LRegionArea::new(5, 5, 15, 10);
    assert!(area.contains(10, 7));
    assert!(!area.contains(3, 3));
    assert!(!area.is_empty());
    let empty = LRegionArea::default();
    assert!(empty.is_empty());
}

#[test]
fn test_place_lregion() {
    let mut rng = GameRng::new(42);
    let mut level = Level::new(DLevel::new(0, 5));
    for x in 10..30 {
        for y in 5..15 {
            level.set_cell_type(x, y, CellType::Room);
        }
    }
    let area = LRegionArea::new(10, 5, 29, 14);
    let exclude = LRegionArea::default();
    let result = place_lregion(&mut level, &area, &exclude, LRegionType::Downstair,
        Some(DLevel::new(0, 6)), &mut rng);
    assert!(result);
    assert!(!level.stairs.is_empty());
}

#[test]
fn test_put_lregion_here() {
    let mut level = Level::new(DLevel::new(0, 5));
    level.set_cell_type(20, 10, CellType::Room);
    let exclude = LRegionArea::default();
    let result = put_lregion_here(&mut level, 20, 10, &exclude, LRegionType::Upstair, false,
        Some(DLevel::new(0, 4)));
    assert!(result);
    assert_eq!(level.cell_type(20, 10), CellType::Stairs);
    assert!(!level.stairs.is_empty());
    assert!(level.stairs[0].up);
}

#[test]
fn test_put_lregion_here_bad_location() {
    let mut level = Level::new(DLevel::new(0, 5));
    let exclude = LRegionArea::default();
    let result = put_lregion_here(&mut level, 20, 10, &exclude, LRegionType::Upstair, false, None);
    assert!(!result);
}

#[test]
fn place_lregion_on_blocked_area_is_forced() {
    let mut rng = GameRng::new(3);
    let mut level = Level::new(DLevel::new(0, 5));
    let area = LRegionArea::new(2, 2, 4, 4);
    let r = place_lregion(&mut level, &area, &LRegionArea::default(), LRegionType::Tele, None, &mut rng);
    assert!(r);
    assert_eq!(level.cell_type(2, 2), CellType::Room);
}

#[test]
fn place_lregion_fully_excluded_area_fails() {
    let mut rng = GameRng::new(3);
    let mut level = Level::new(DLevel::new(0, 5));
    let area = LRegionArea::new(2, 2, 4, 4);
    let exclude = LRegionArea::new(1, 1, 5, 5);
    let r = place_lregion(&mut level, &area, &exclude, LRegionType::Tele, None, &mut rng);
    assert!(!r);
    assert_eq!(level.cell_type(3, 3), CellType::Stone);
}

#[test]
fn put_lregion_here_oneshot_places_on_bad_spot() {
    let mut level = Level::new(DLevel::new(0, 5));
    let exclude = LRegionArea::default();
    let r = put_lregion_here(&mut level, 20, 10, &exclude, LRegionType::Upstair, true, Some(DLevel::new(0, 4)));
    assert!(r);
    assert_eq!(level.cell_type(20, 10), CellType::Stairs);
    assert!(level.stairs[0].up);
    let excl = LRegionArea::new(19, 9, 21, 11);
    let r2 = put_lregion_here(&mut level, 20, 10, &excl, LRegionType::Downstair, true, None);
    assert!(!r2);
}
