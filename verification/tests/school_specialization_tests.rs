use nh_core::magic::school_specialization::{
    can_use_school_ability, get_specialization_failure_reduction, SchoolSpecialization, SpecializationLevel,
    SpecializationTracker,
};
use nh_core::magic::spell::SpellSchool;

#[test]
fn test_specialization_level_mana_reduction() {
    assert_eq!(SpecializationLevel::Unspecialized.mana_reduction(), 0);
    assert_eq!(SpecializationLevel::Novice.mana_reduction(), 5);
    assert_eq!(SpecializationLevel::Archmage.mana_reduction(), 25);
}

#[test]
fn test_specialization_level_failure_reduction() {
    assert_eq!(SpecializationLevel::Unspecialized.failure_reduction(), 0);
    assert_eq!(SpecializationLevel::Master.failure_reduction(), 20);
}

#[test]
fn test_specialization_level_advance() {
    let level = SpecializationLevel::Novice;
    assert_eq!(level.advance(), SpecializationLevel::Adept);
}

#[test]
fn test_school_specialization_new() {
    let spec = SchoolSpecialization::new(SpellSchool::Attack);
    assert_eq!(spec.school, SpellSchool::Attack);
    assert_eq!(spec.level, SpecializationLevel::Unspecialized);
}

#[test]
fn test_school_specialization_spell_cast() {
    let mut spec = SchoolSpecialization::new(SpellSchool::Attack);
    spec.spell_cast();
    assert_eq!(spec.spells_cast, 1);
    assert!(spec.experience > 0);
}

#[test]
fn test_school_specialization_add_experience() {
    let mut spec = SchoolSpecialization::new(SpellSchool::Attack);
    spec.add_experience(50);
    assert_eq!(spec.experience, 50);
}

#[test]
fn test_school_specialization_level_up() {
    let mut spec = SchoolSpecialization::new(SpellSchool::Attack);
    spec.add_experience(100);
    assert_eq!(spec.level, SpecializationLevel::Novice);
}

#[test]
fn test_specialization_tracker_new() {
    let tracker = SpecializationTracker::new();
    assert!(tracker.schools.is_empty());
}

#[test]
fn test_specialization_tracker_initialize() {
    let mut tracker = SpecializationTracker::new();
    tracker.initialize_all_schools();
    assert_eq!(tracker.schools.len(), SpellSchool::all().len());
}

#[test]
fn test_specialization_tracker_spell_cast() {
    let mut tracker = SpecializationTracker::new();
    tracker.spell_cast_in_school(SpellSchool::Attack);
    assert!(tracker.get(SpellSchool::Attack).is_some());
}

#[test]
fn test_specialization_tracker_total_spells() {
    let mut tracker = SpecializationTracker::new();
    tracker.spell_cast_in_school(SpellSchool::Attack);
    tracker.spell_cast_in_school(SpellSchool::Attack);
    tracker.spell_cast_in_school(SpellSchool::Healing);
    assert_eq!(tracker.total_spells_cast(), 3);
}

#[test]
fn test_specialization_tracker_highest_level() {
    let mut tracker = SpecializationTracker::new();
    tracker.initialize_all_schools();
    assert_eq!(tracker.highest_level(), SpecializationLevel::Unspecialized);
}

#[test]
fn test_can_use_school_ability() {
    let mut tracker = SpecializationTracker::new();
    tracker.spell_cast_in_school(SpellSchool::Attack);
    assert!(!can_use_school_ability(&tracker, SpellSchool::Attack));
}

#[test]
fn test_specialization_tracker_is_specialized() {
    let mut tracker = SpecializationTracker::new();
    assert!(!tracker.is_specialized());

    tracker.spell_cast_in_school(SpellSchool::Attack);
    if let Some(spec) = tracker.get_mut(SpellSchool::Attack) {
        spec.add_experience(100);
    }

    assert!(tracker.is_specialized());
}

#[test]
fn test_specialization_level_name() {
    assert_eq!(SpecializationLevel::Unspecialized.name(), "unspecialized");
    assert_eq!(SpecializationLevel::Archmage.name(), "archmage");
}

#[test]
fn test_level_up_keeps_remaining_experience() {
    let mut spec = SchoolSpecialization::new(SpellSchool::Healing);
    spec.add_experience(130);
    assert_eq!(spec.level, SpecializationLevel::Novice);
    assert_eq!(spec.experience, 30);
    spec.add_experience(170);
    assert_eq!(spec.level, SpecializationLevel::Adept);
    assert_eq!(spec.experience, 0);
}

#[test]
fn test_one_level_per_gain() {
    let mut spec = SchoolSpecialization::new(SpellSchool::Matter);
    spec.add_experience(1000);
    assert_eq!(spec.level, SpecializationLevel::Novice);
    assert_eq!(spec.experience, 900);
}

#[test]
fn test_archmage_never_advances() {
    let mut spec = SchoolSpecialization::new(SpellSchool::Escape);
    spec.level = SpecializationLevel::Archmage;
    spec.add_experience(5000);
    assert_eq!(spec.level, SpecializationLevel::Archmage);
    assert_eq!(spec.experience, 5000);
    assert_eq!(SpecializationLevel::Archmage.advance(), SpecializationLevel::Archmage);
}

#[test]
fn test_failure_reduction_by_tracker() {
    let mut tracker = SpecializationTracker::new();
    assert_eq!(get_specialization_failure_reduction(&tracker, SpellSchool::Clerical), 0);
    tracker.spell_cast_in_school(SpellSchool::Clerical);
    if let Some(spec) = tracker.get_mut(SpellSchool::Clerical) {
        spec.level = SpecializationLevel::Archmage;
    }
    assert_eq!(get_specialization_failure_reduction(&tracker, SpellSchool::Clerical), 30);
    assert!(can_use_school_ability(&tracker, SpellSchool::Clerical));
}

#[test]
fn test_count_and_order_by_level() {
    let mut tracker = SpecializationTracker::new();
    tracker.initialize_all_schools();
    if let Some(spec) = tracker.get_mut(SpellSchool::Matter) {
        spec.level = SpecializationLevel::Master;
    }
    if let Some(spec) = tracker.get_mut(SpellSchool::Healing) {
        spec.level = SpecializationLevel::Novice;
    }
    assert_eq!(tracker.count_at_level(SpecializationLevel::Unspecialized), 5);
    assert_eq!(tracker.count_at_level(SpecializationLevel::Master), 1);
    assert_eq!(tracker.highest_level(), SpecializationLevel::Master);
    let ordered = tracker.schools_by_level();
    assert_eq!(ordered.len(), 7);
    assert_eq!(ordered[0], (SpellSchool::Matter, SpecializationLevel::Master));
    assert_eq!(ordered[1], (SpellSchool::Healing, SpecializationLevel::Novice));
    assert_eq!(ordered[2], (SpellSchool::Attack, SpecializationLevel::Unspecialized));
}

#[test]
fn test_get_mut_absent_school() {
    let mut tracker = SpecializationTracker::new();
    assert!(tracker.get_mut(SpellSchool::Divination).is_none());
}

#[test]
fn test_checked_cast_and_total() {
    let mut tracker = SpecializationTracker::new();
    assert!(tracker.spell_cast_in_school_checked(SpellSchool::Matter));
    assert_eq!(tracker.total_spells_cast_checked(), Some(1));
    if let Some(spec) = tracker.get_mut(SpellSchool::Matter) {
        spec.spells_cast = i32::MAX;
    }
    assert!(!tracker.spell_cast_in_school_checked(SpellSchool::Matter));
    assert_eq!(tracker.get(SpellSchool::Matter).unwrap().spells_cast, i32::MAX);
    assert!(tracker.spell_cast_in_school_checked(SpellSchool::Healing));
    assert_eq!(tracker.total_spells_cast_checked(), None);
}

#[test]
fn test_experience_to_advance_table() {
    assert_eq!(SpecializationLevel::Unspecialized.experience_to_advance(), 100);
    assert_eq!(SpecializationLevel::Novice.experience_to_advance(), 200);
    assert_eq!(SpecializationLevel::Adept.experience_to_advance(), 400);
    assert_eq!(SpecializationLevel::Specialist.experience_to_advance(), 800);
    assert_eq!(SpecializationLevel::Master.experience_to_advance(), 1600);
    assert_eq!(SpecializationLevel::Archmage.experience_to_advance(), i32::MAX);
}
