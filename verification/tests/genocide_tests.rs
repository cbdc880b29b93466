use nh_core::dungeon::level::{DLevel, Level};
use nh_core::magic::genocide::{
    dead_species, is_unique_npc, kill_genocided_monsters, kill_genocided_monsters_by_type, list_genocided,
    num_extinct, GenocideResult, MonsterVitals,
};
use nh_core::monster::{Monster, MonsterId};

#[test]
fn test_monster_vitals_creation() {
    let vitals = MonsterVitals::new();
    assert_eq!(vitals.num_genocides(), 0);
    assert!(!vitals.is_genocided(1));
}

#[test]
fn test_mark_genocided() {
    let mut vitals = MonsterVitals::new();
    vitals.mark_genocided(5);
    assert!(vitals.is_genocided(5));
    assert_eq!(vitals.num_genocides(), 1);
}

#[test]
fn test_multiple_genocides() {
    let mut vitals = MonsterVitals::new();
    vitals.mark_genocided(5);
    vitals.mark_genocided(10);
    vitals.mark_genocided(15);
    assert_eq!(vitals.num_genocides(), 3);
    assert!(vitals.is_genocided(5));
    assert!(vitals.is_genocided(10));
    assert!(vitals.is_genocided(15));
    assert!(!vitals.is_genocided(20));
}

#[test]
fn test_genocide_flags() {
    let mut vitals = MonsterVitals::new();
    vitals.mark_genocided(7);
    let flags = vitals.get_flags(7);
    assert!(flags.genocided);
    assert!(flags.no_corpse);
}

#[test]
fn test_genocide_flags_default() {
    let vitals = MonsterVitals::new();
    let flags = vitals.get_flags(999);
    assert!(!flags.genocided);
    assert!(!flags.no_corpse);
}

#[test]
fn test_genocide_result_builder() {
    let result = GenocideResult::new()
        .with_message("Test message 1")
        .with_message("Test message 2")
        .with_killed(5)
        .with_alignment_shift(-10);
    assert_eq!(result.messages.len(), 2);
    assert_eq!(result.killed_count, 5);
    assert_eq!(result.alignment_shift, -10);
    assert!(!result.player_died);
}

#[test]
fn test_genocide_result_with_player_death() {
    let result = GenocideResult::new().with_player_death().with_message("You die!");
    assert!(result.player_died);
    assert_eq!(result.messages.len(), 1);
}

#[test]
fn test_kill_genocided_monsters_empty_level() {
    let mut level = Level::new(DLevel::default());
    let (count, messages) = kill_genocided_monsters(&mut level, 5);
    assert_eq!(count, 0);
    assert_eq!(messages.len(), 0);
}

#[test]
fn test_kill_genocided_monsters_removes_correct_type() {
    let mut level = Level::new(DLevel::default());
    let mon1 = Monster::new(MonsterId(1), 5, 10, 10);
    let mon2 = Monster::new(MonsterId(2), 6, 11, 11);
    let mon3 = Monster::new(MonsterId(3), 5, 12, 12);
    level.add_monster(mon1);
    level.add_monster(mon2);
    level.add_monster(mon3);
    assert_eq!(level.monsters.len(), 3);
    let (count, messages) = kill_genocided_monsters(&mut level, 5);
    assert_eq!(count, 2);
    assert_eq!(messages.len(), 2);
    assert_eq!(level.monsters.len(), 1);
    assert_eq!(level.monsters[0].monster_type, 6);
}

#[test]
fn test_is_unique_npc() {
    const G_UNIQ: u16 = 0x1000;
    const G_NOGEN: u16 = 0x0200;
    assert!(is_unique_npc(0, G_UNIQ));
    assert!(is_unique_npc(1, G_NOGEN));
    assert!(is_unique_npc(100, G_UNIQ | G_NOGEN));
    assert!(!is_unique_npc(10, 0));
    assert!(!is_unique_npc(30, 0x0001));
    assert!(!is_unique_npc(99, 0));
}

#[test]
fn test_class_genocide_protects_uniques() {
    const G_UNIQ: u16 = 0x1000;
    assert!(is_unique_npc(1, G_UNIQ));
    assert!(is_unique_npc(50, G_UNIQ));
    assert!(is_unique_npc(100, G_UNIQ));
}

#[test]
fn test_class_genocide_regular_monsters_not_unique() {
    assert!(!is_unique_npc(5, 0));
    assert!(!is_unique_npc(15, 0));
    assert!(!is_unique_npc(75, 0));
}

#[test]
fn test_list_genocided() {
    let mut vitals = MonsterVitals::new();
    vitals.mark_genocided(5);
    vitals.mark_genocided(10);
    vitals.mark_genocided(15);
    let list = list_genocided(&vitals);
    assert_eq!(list.len(), 3);
    assert!(list.contains(&5));
    assert!(list.contains(&10));
    assert!(list.contains(&15));
}

#[test]
fn test_dead_species() {
    let mut vitals = MonsterVitals::new();
    vitals.mark_genocided(5);
    assert!(dead_species(5, &vitals));
    assert!(!dead_species(6, &vitals));
}

#[test]
fn test_num_extinct() {
    let mut vitals = MonsterVitals::new();
    vitals.mark_genocided(5);
    vitals.mark_genocided(10);
    assert_eq!(num_extinct(&vitals), 2);
}

#[test]
fn test_kill_messages_last_first() {
    let mut level = Level::new(DLevel::default());
    let mut a = Monster::new(MonsterId(1), 3, 1, 1);
    a.name = "kobold".to_string();
    let mut b = Monster::new(MonsterId(2), 4, 2, 2);
    b.name = "jackal".to_string();
    let mut c = Monster::new(MonsterId(3), 3, 3, 3);
    c.name = "large kobold".to_string();
    level.add_monster(a);
    level.add_monster(b);
    level.add_monster(c);
    let (count, messages) = kill_genocided_monsters_by_type(&mut level, &[3, 9]);
    assert_eq!(count, 2);
    assert_eq!(
        messages,
        vec!["A large kobold is annihilated!".to_string(), "A kobold is annihilated!".to_string()]
    );
    assert_eq!(level.monsters.len(), 1);
    assert_eq!(level.monsters[0].name, "jackal");
}

#[test]
fn test_marking_twice_counts_once() {
    let mut vitals = MonsterVitals::default();
    vitals.mark_genocided(8);
    vitals.mark_genocided(8);
    assert_eq!(num_extinct(&vitals), 1);
    let copy = vitals.clone();
    assert!(copy.is_genocided(8));
}

#[test]
fn test_vitals_clear_forgets_all() {
    let mut vitals = MonsterVitals::new();
    vitals.mark_genocided(12);
    vitals.mark_genocided(40);
    assert!(vitals.is_genocided(12));
    vitals.clear();
    assert!(!vitals.is_genocided(12));
    assert!(!vitals.is_genocided(40));
    assert!(list_genocided(&vitals).is_empty());
}
