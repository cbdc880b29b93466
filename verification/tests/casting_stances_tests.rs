use nh_core::magic::casting_stances::{failure_under_stance, CastingStance, StanceEffects, StanceTracker};

#[test]
fn test_stance_names() {
    assert_eq!(CastingStance::Aggressive.name(), "Aggressive");
    assert_eq!(CastingStance::Defensive.name(), "Defensive");
}

#[test]
fn test_stance_tracker() {
    let mut tracker = StanceTracker::new();
    assert_eq!(tracker.current_stance, CastingStance::Balanced);
    tracker.set_stance(CastingStance::Aggressive);
    assert_eq!(tracker.current_stance, CastingStance::Aggressive);
}

#[test]
fn test_tick_counts_and_resets() {
    let mut tracker = StanceTracker::default();
    tracker.tick();
    tracker.tick();
    assert_eq!(tracker.turns_in_stance, 2);
    tracker.set_stance(CastingStance::Efficient);
    assert_eq!(tracker.turns_in_stance, 0);
    assert_eq!(CastingStance::all().len(), 6);
    assert_eq!(CastingStance::all()[4], CastingStance::Reckless);
    assert_eq!(CastingStance::default(), CastingStance::Balanced);
}

#[test]
fn test_stance_effects_table() {
    let e = StanceEffects::for_stance(CastingStance::Aggressive);
    assert!(e.failure_rate_change > 0);
    assert_eq!(e.ac_bonus, -2);
    assert_eq!(e.backlash_risk, 15);
    let d = StanceEffects::for_stance(CastingStance::Defensive);
    assert_eq!(d.failure_rate_change, -10);
    assert_eq!(d.ac_bonus, 3);
}

#[test]
fn test_failure_under_stance_is_clamped() {
    assert_eq!(failure_under_stance(30, 25), 55);
    assert_eq!(failure_under_stance(5, -15), 0);
    assert_eq!(failure_under_stance(90, 25), 100);
}
