use nh_core::magic::elemental_reactions::{
    create_environmental_hazard, get_reaction_message, ElementType, ElementalReaction, ElementalReactionTracker,
    EnvironmentalHazard, ReactionType,
};

#[test]
fn test_element_type_names() {
    assert_eq!(ElementType::Fire.name(), "fire");
    assert_eq!(ElementType::Lightning.name(), "lightning");
}

#[test]
fn test_reaction_type_names() {
    assert_eq!(ReactionType::Amplification.name(), "amplification");
    assert_eq!(ReactionType::Cancellation.name(), "cancellation");
}

#[test]
fn test_elemental_reaction_fire_cold() {
    let reaction = ElementalReaction::check_reaction(ElementType::Fire, ElementType::Cold);
    assert!(reaction.is_some());
    assert_eq!(reaction.unwrap().reaction, ReactionType::Cancellation);
}

#[test]
fn test_elemental_reaction_tracker_creation() {
    let tracker = ElementalReactionTracker::new();
    assert_eq!(tracker.current_turn, 0);
    assert!(tracker.recent_elements.is_empty());
}

#[test]
fn test_elemental_reaction_tracker_record() {
    let mut tracker = ElementalReactionTracker::new();
    tracker.record_element(5, 10, ElementType::Fire);
    let recent = tracker.get_recent_elements(5, 10, 5);
    assert_eq!(recent.len(), 1);
    assert_eq!(recent[0], ElementType::Fire);
}

#[test]
fn test_environmental_hazard_creation() {
    let hazard = EnvironmentalHazard::new(5, 10, ElementType::Fire, 10, 5);
    assert_eq!(hazard.x, 5);
    assert_eq!(hazard.y, 10);
    assert_eq!(hazard.damage_per_turn, 10);
    assert_eq!(hazard.remaining_turns, 5);
    assert!(hazard.is_active());
}

#[test]
fn test_environmental_hazard_tick() {
    let mut hazard = EnvironmentalHazard::new(5, 10, ElementType::Fire, 10, 3);
    hazard.tick();
    assert_eq!(hazard.remaining_turns, 2);
    hazard.tick();
    hazard.tick();
    assert_eq!(hazard.remaining_turns, 0);
    assert!(!hazard.is_active());
    hazard.tick();
    assert_eq!(hazard.remaining_turns, 0);
}

#[test]
fn test_reactions_either_order_and_values() {
    let r = ElementalReaction::check_reaction(ElementType::Fire, ElementType::Lightning).unwrap();
    assert_eq!(r.element1, ElementType::Lightning);
    assert_eq!(r.damage_percent, 130);
    assert!(ElementalReaction::check_reaction(ElementType::Poison, ElementType::Radiant).is_none());
    assert_eq!(ElementalReaction::all_reactions().len(), 7);
    assert_eq!(ElementType::all().len(), 9);
}

#[test]
fn test_position_reactions_pairs() {
    let mut tracker = ElementalReactionTracker::new();
    tracker.record_element(1, 1, ElementType::Fire);
    tracker.record_element(1, 1, ElementType::Cold);
    tracker.record_element(1, 1, ElementType::Fire);
    let reactions = tracker.check_position_reactions(1, 1);
    // fire-cold, fire-fire, cold-fire
    assert_eq!(reactions.len(), 3);
    assert_eq!(reactions[0].reaction, ReactionType::Cancellation);
    assert_eq!(reactions[1].reaction, ReactionType::Amplification);
    assert_eq!(reactions[2].reaction, ReactionType::Cancellation);
    assert!(tracker.check_position_reactions(2, 2).is_empty());
}

#[test]
fn test_old_elements_age_out() {
    let mut tracker = ElementalReactionTracker::new();
    tracker.record_element(0, 0, ElementType::Acid);
    for _ in 0..3 {
        tracker.next_turn();
    }
    tracker.record_element(0, 0, ElementType::Force);
    assert_eq!(tracker.get_recent_elements(0, 0, 2), vec![ElementType::Force]);
    assert_eq!(tracker.get_recent_elements(0, 0, 3), vec![ElementType::Acid, ElementType::Force]);
    for _ in 0..8 {
        tracker.next_turn();
    }
    assert_eq!(tracker.get_recent_elements(0, 0, 100), vec![ElementType::Force]);
    tracker.clear();
    assert_eq!(tracker.current_turn, 0);
    assert!(tracker.recent_elements.is_empty());
}

#[test]
fn test_position_keeps_last_ten() {
    let mut tracker = ElementalReactionTracker::new();
    tracker.record_element(3, 3, ElementType::Water);
    for _ in 0..10 {
        tracker.record_element(3, 3, ElementType::Fire);
    }
    let recent = tracker.get_recent_elements(3, 3, 0);
    assert_eq!(recent.len(), 10);
    assert!(!recent.contains(&ElementType::Water));
}

#[test]
fn test_reaction_messages() {
    let r = ElementalReaction::check_reaction(ElementType::Water, ElementType::Lightning).unwrap();
    assert_eq!(get_reaction_message(r), "The lightning transforms into water!");
    let h = create_environmental_hazard(ElementType::Acid, 4, 2, 3, 6);
    assert_eq!((h.x, h.y, h.damage_per_turn, h.remaining_turns), (2, 3, 4, 6));
}
