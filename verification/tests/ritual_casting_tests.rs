use nh_core::magic::ritual_casting::{
    advance_ritual, begin_ritual, complete_ritual, RitualEffect, RitualProgress, RitualSpellType,
    RitualTracker,
};
use nh_core::rng::GameRng;

#[test]
fn test_ritual_spell_type_names() {
    assert_eq!(RitualSpellType::GreaterSummoning.name(), "Greater Summoning");
    assert_eq!(RitualSpellType::Wish.name(), "Wish");
}

#[test]
fn test_ritual_spell_turns_required() {
    assert_eq!(RitualSpellType::MassHealing.turns_required(), 3);
    assert_eq!(RitualSpellType::Wish.turns_required(), 15);
}

#[test]
fn test_ritual_progress_creation() {
    let progress = RitualProgress::new(RitualSpellType::MassHealing, 5, 10);
    assert_eq!(progress.ritual_type, RitualSpellType::MassHealing);
    assert_eq!(progress.turns_completed, 0);
    assert!(!progress.is_complete());
}

#[test]
fn test_ritual_progress_completion() {
    let mut progress = RitualProgress::new(RitualSpellType::MassHealing, 5, 10);
    for _ in 0..3 {
        progress.advance_turn();
    }
    assert!(progress.is_complete());
}

#[test]
fn test_ritual_progress_percent() {
    let mut progress = RitualProgress::new(RitualSpellType::MassHealing, 5, 10);
    assert_eq!(progress.percent_complete(), 0);
    progress.advance_turn();
    assert_eq!(progress.percent_complete(), 33);
    progress.advance_turn();
    assert_eq!(progress.percent_complete(), 66);
    progress.advance_turn();
    assert_eq!(progress.percent_complete(), 100);
}

#[test]
fn test_ritual_total_mana() {
    let total = RitualSpellType::MassHealing.total_mana_required();
    assert_eq!(total, 30 * 3);
}

#[test]
fn test_ritual_tracker_creation() {
    let tracker = RitualTracker::new();
    assert!(!tracker.is_in_progress());
    assert!(tracker.active_ritual().is_none());
}

#[test]
fn test_ritual_interrupt() {
    let mut progress = RitualProgress::new(RitualSpellType::MassHealing, 5, 10);
    progress.advance_turn();
    progress.interrupt();
    assert!(progress.interrupted);
    assert_eq!(progress.turns_completed, 1);
}

#[test]
fn test_ritual_effect_messages() {
    let effect = RitualEffect::Summoning {
        creature_count: 3,
        message: "Test message".to_string(),
    };
    assert_eq!(effect.message(), "Test message");
}

#[test]
fn test_begin_ritual_needs_mana() {
    let err = begin_ritual(RitualSpellType::Wish, 1, 2, 100).unwrap_err();
    assert_eq!(err, "Not enough energy to complete ritual. Need 2250 mana.");
    let ok = begin_ritual(RitualSpellType::MassHealing, 1, 2, 90).unwrap();
    assert_eq!((ok.start_x, ok.start_y, ok.turns_completed), (1, 2, 0));
}

#[test]
fn test_advance_and_complete_ritual() {
    let mut rng = GameRng::new(3);
    let mut p = RitualProgress::new(RitualSpellType::MassHealing, 0, 0);
    let m1 = advance_ritual(&mut p, 0, &mut rng);
    assert_eq!(m1, "Continuing ritual Mass Healing... (1/3)");
    advance_ritual(&mut p, 0, &mut rng);
    let m3 = advance_ritual(&mut p, 0, &mut rng);
    assert_eq!(m3, "Ritual Mass Healing is complete!");
    assert_eq!(p.mana_invested, 90);
    assert_eq!(advance_ritual(&mut p, 100, &mut rng), "Ritual is already complete!");
    match complete_ritual(&p) {
        RitualEffect::Healing { heal_amount, radius, .. } => {
            assert_eq!((heal_amount, radius), (100, 10));
        }
        _ => panic!("expected healing"),
    }
    assert_eq!(p.status_message(), "Ritual Mass Healing 100% complete (3/3)");
}

#[test]
fn test_disrupted_ritual_fails() {
    let mut rng = GameRng::new(3);
    let mut p = RitualProgress::new(RitualSpellType::Wish, 0, 0);
    let m = advance_ritual(&mut p, 100, &mut rng);
    assert_eq!(m, "The ritual is disrupted! 90 % of mana is wasted.");
    assert!(p.interrupted);
    assert_eq!(p.status_message(), "Ritual Wish was interrupted!");
    assert_eq!(
        complete_ritual(&p).message(),
        "Ritual was not completed or was interrupted."
    );
    let mut t = RitualTracker::new();
    t.active_ritual = Some(p);
    assert!(t.is_in_progress());
    if let Some(r) = t.active_ritual_mut() {
        r.interrupted = false;
    }
    assert!(!t.active_ritual().unwrap().interrupted);
    t.reset();
    assert!(!t.is_in_progress());
}
