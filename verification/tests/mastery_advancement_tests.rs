use nh_core::magic::mastery_advancement::{
    ready_for_advancement_at, MasteryAdvancementTracker, MasteryMilestone, SpellMasteryProgress,
};
use nh_core::magic::spell::{SpellMastery, SpellType};

#[test]
fn test_mastery_milestone_requirement() {
    assert_eq!(MasteryMilestone::ReachedNovice.requirement(), 1);
    assert_eq!(MasteryMilestone::ReachedAdept.requirement(), 50);
    assert_eq!(MasteryMilestone::ReachedArchmage.requirement(), 1000);
}

#[test]
fn test_mastery_milestone_message() {
    assert!(!MasteryMilestone::ReachedNovice.message().is_empty());
    assert!(!MasteryMilestone::ReachedMaster.message().is_empty());
}

#[test]
fn test_mastery_milestone_bonus() {
    assert!(MasteryMilestone::ReachedNovice.bonus() < MasteryMilestone::ReachedMaster.bonus());
}

#[test]
fn test_spell_mastery_progress_new() {
    let progress = SpellMasteryProgress::new(SpellType::ForceBolt);
    assert_eq!(progress.spell_type, SpellType::ForceBolt);
    assert_eq!(progress.mastery, SpellMastery::Unknown);
}

#[test]
fn test_spell_mastery_progress_cast_spell() {
    let mut progress = SpellMasteryProgress::new(SpellType::ForceBolt);
    progress.cast_spell(true);
    assert_eq!(progress.times_cast, 1);
    assert_eq!(progress.times_succeeded, 1);
}

#[test]
fn test_spell_mastery_progress_advancement() {
    let mut progress = SpellMasteryProgress::new(SpellType::ForceBolt);
    for _ in 0..5 {
        progress.cast_spell(true);
    }
    assert_eq!(progress.mastery, SpellMastery::Novice);
}

#[test]
fn test_spell_mastery_progress_critical_hit() {
    let mut progress = SpellMasteryProgress::new(SpellType::ForceBolt);
    progress.critical_hit();
    assert_eq!(progress.critical_hits, 1);
}

#[test]
fn test_mastery_advancement_tracker_new() {
    let tracker = MasteryAdvancementTracker::new();
    assert_eq!(tracker.total_spells_cast, 0);
}

#[test]
fn test_mastery_advancement_tracker_record_spell() {
    let mut tracker = MasteryAdvancementTracker::new();
    tracker.record_spell_cast(SpellType::ForceBolt, true);
    assert_eq!(tracker.total_spells_cast, 1);
    assert_eq!(tracker.total_successes, 1);
}

#[test]
fn test_mastery_advancement_tracker_highest_mastery() {
    let mut tracker = MasteryAdvancementTracker::new();
    tracker.record_spell_cast(SpellType::ForceBolt, true);
    for _ in 0..4 {
        tracker.record_spell_cast(SpellType::ForceBolt, true);
    }
    assert_eq!(tracker.highest_mastery(), SpellMastery::Novice);
}

#[test]
fn test_mastery_advancement_tracker_check_milestone() {
    let mut tracker = MasteryAdvancementTracker::new();
    tracker.record_spell_cast(SpellType::ForceBolt, true);
    let milestone = tracker.check_milestone(SpellType::ForceBolt);
    assert!(milestone.is_some());
    assert_eq!(milestone.unwrap().0, MasteryMilestone::ReachedNovice);
}

#[test]
fn test_milestone_announced_once() {
    let mut tracker = MasteryAdvancementTracker::new();
    tracker.record_spell_cast(SpellType::Fireball, false);
    let first = tracker.check_milestone(SpellType::Fireball);
    assert_eq!(first, Some((MasteryMilestone::ReachedNovice, "You have reached Novice mastery!".to_string())));
    assert_eq!(tracker.check_milestone(SpellType::Fireball), None);
    assert_eq!(tracker.check_milestone(SpellType::Sleep), None);
}

#[test]
fn test_one_mastery_step_per_cast() {
    let mut progress = SpellMasteryProgress::new(SpellType::Identify);
    progress.times_cast = 600;
    progress.cast_spell(true);
    assert_eq!(progress.mastery, SpellMastery::Novice);
    progress.cast_spell(false);
    assert_eq!(progress.mastery, SpellMastery::Adept);
    assert_eq!(progress.times_failed, 1);
    assert_eq!(progress.times_succeeded, 1);
}

#[test]
fn test_ready_for_advancement_at_thresholds() {
    let mut progress = SpellMasteryProgress::new(SpellType::ForceBolt);
    progress.mastery = SpellMastery::Novice;
    progress.times_cast = 50;
    assert!(ready_for_advancement_at(&progress, 60));
    assert!(!ready_for_advancement_at(&progress, 59));
    progress.times_cast = 49;
    assert!(!ready_for_advancement_at(&progress, 100));
    progress.mastery = SpellMastery::Master;
    progress.times_cast = 10000;
    assert!(!ready_for_advancement_at(&progress, 100));
}

#[test]
fn test_tracker_counts_and_usage_order() {
    let mut tracker = MasteryAdvancementTracker::new();
    tracker.record_spell_cast(SpellType::Light, true);
    for _ in 0..3 {
        tracker.record_spell_cast(SpellType::Dig, true);
    }
    tracker.record_spell_cast(SpellType::Knock, true);
    for _ in 0..5 {
        tracker.record_spell_cast(SpellType::Healing, false);
    }
    assert_eq!(tracker.get_mastery(SpellType::Healing), SpellMastery::Novice);
    assert_eq!(tracker.get_mastery(SpellType::Jumping), SpellMastery::Unknown);
    assert_eq!(tracker.spells_at_mastery(SpellMastery::Unknown), 3);
    assert_eq!(tracker.spells_at_mastery(SpellMastery::Novice), 1);
    assert_eq!(
        tracker.spells_by_usage(),
        vec![(SpellType::Healing, 5), (SpellType::Dig, 3), (SpellType::Light, 1), (SpellType::Knock, 1)]
    );
    assert_eq!(tracker.total_spells_cast, 10);
    assert_eq!(tracker.total_successes, 5);
}

#[test]
fn test_record_critical_hit_only_for_cast_spells() {
    let mut tracker = MasteryAdvancementTracker::new();
    tracker.record_critical_hit(SpellType::Dig);
    assert!(tracker.spells.is_empty());
    tracker.record_spell_cast(SpellType::Dig, true);
    tracker.record_critical_hit(SpellType::Dig);
    assert_eq!(tracker.spells[0].critical_hits, 1);
}
