use nh_core::magic::identification::{
    get_identification_progress, get_identified_description, identify_from_scroll,
    identify_from_use, IdentificationKnowledge, IdentificationLevel, IdentificationResult,
    ItemKnowledge,
};

#[test]
fn test_item_knowledge_creation() {
    let knowledge = ItemKnowledge::new(100);
    assert_eq!(knowledge.object_type, 100);
    assert_eq!(knowledge.identification_level, IdentificationLevel::Unknown);
}

#[test]
fn test_can_auto_identify() {
    let mut knowledge = ItemKnowledge::new(100);
    assert!(!knowledge.can_auto_identify());
    knowledge.times_used = 3;
    assert!(knowledge.can_auto_identify());
    knowledge.times_used = 0;
    knowledge.times_tested = 2;
    assert!(knowledge.can_auto_identify());
}

#[test]
fn test_identification_knowledge_get_or_create() {
    let mut kb = IdentificationKnowledge::new();
    assert!(kb.get_knowledge(100).is_none());
    let _ = kb.get_or_create(100);
    assert!(kb.get_knowledge(100).is_some());
}

#[test]
fn test_mark_used_auto_identify() {
    let mut kb = IdentificationKnowledge::new();
    kb.mark_used(100);
    kb.mark_used(100);
    assert_eq!(kb.get_knowledge(100).unwrap().identification_level, IdentificationLevel::Unknown);
    kb.mark_used(100);
    assert_eq!(kb.get_knowledge(100).unwrap().identification_level, IdentificationLevel::Discovered);
}

#[test]
fn test_identify_item() {
    let mut kb = IdentificationKnowledge::new();
    kb.identify_item(100);
    let knowledge = kb.get_knowledge(100).unwrap();
    assert_eq!(knowledge.identification_level, IdentificationLevel::Identified);
}

#[test]
fn test_add_benefit() {
    let mut kb = IdentificationKnowledge::new();
    kb.add_benefit(100, "increases strength".to_string());
    let benefits = &kb.get_knowledge(100).unwrap().discovered_benefits;
    assert_eq!(benefits.len(), 1);
    assert!(benefits.contains(&"increases strength".to_string()));
}

#[test]
fn test_add_benefit_duplicate() {
    let mut kb = IdentificationKnowledge::new();
    kb.add_benefit(100, "increases strength".to_string());
    kb.add_benefit(100, "increases strength".to_string());
    let benefits = &kb.get_knowledge(100).unwrap().discovered_benefits;
    assert_eq!(benefits.len(), 1);
}

#[test]
fn test_is_known() {
    let mut kb = IdentificationKnowledge::new();
    assert!(!kb.is_known(100));
    kb.identify_item(100);
    assert!(kb.is_known(100));
}

#[test]
fn test_count_identified() {
    let mut kb = IdentificationKnowledge::new();
    kb.identify_item(100);
    kb.identify_item(200);
    kb.identify_item(300);
    assert_eq!(kb.count_identified(), 3);
}

#[test]
fn test_identify_from_scroll() {
    let mut kb = IdentificationKnowledge::new();
    let result = identify_from_scroll(&mut kb, 100);
    assert!(result.identified);
    assert!(result.new_knowledge);
    assert_eq!(kb.get_knowledge(100).unwrap().identification_level, IdentificationLevel::Identified);
}

#[test]
fn test_identify_from_use() {
    let mut kb = IdentificationKnowledge::new();
    let result1 = identify_from_use(&mut kb, 100);
    assert!(!result1.identified);
    identify_from_use(&mut kb, 100);
    let result3 = identify_from_use(&mut kb, 100);
    assert!(result3.identified);
    assert_eq!(kb.get_knowledge(100).unwrap().identification_level, IdentificationLevel::Discovered);
}

#[test]
fn test_get_identified_description_unknown() {
    let kb = IdentificationKnowledge::new();
    let desc = get_identified_description(&kb, 100, "sword");
    assert_eq!(desc, "unidentified sword");
}

#[test]
fn test_get_identified_description_identified() {
    let mut kb = IdentificationKnowledge::new();
    kb.identify_item(100);
    let desc = get_identified_description(&kb, 100, "sword of sharpness");
    assert_eq!(desc, "sword of sharpness");
}

#[test]
fn test_get_identification_progress() {
    let mut kb = IdentificationKnowledge::new();
    assert_eq!(get_identification_progress(&kb, 100), 0);
    kb.mark_used(100);
    kb.mark_used(100);
    kb.mark_used(100);
    assert_eq!(get_identification_progress(&kb, 100), 50);
    kb.identify_item(100);
    assert_eq!(get_identification_progress(&kb, 100), 75);
}

#[test]
fn test_mark_tested() {
    let mut kb = IdentificationKnowledge::new();
    kb.mark_tested(100);
    assert_eq!(kb.get_knowledge(100).unwrap().times_tested, 1);
}

#[test]
fn test_use_messages_and_scroll_repeats() {
    let mut kb = IdentificationKnowledge::default();
    let r1 = identify_from_use(&mut kb, 7);
    assert_eq!(
        r1.messages,
        vec!["You're getting a sense of what this item does... (2 more uses to discover)".to_string()]
    );
    let r2 = identify_from_scroll(&mut kb, 7);
    assert_eq!(r2.messages, vec!["The scroll reveals the item's true nature!".to_string()]);
    let r3 = identify_from_scroll(&mut kb, 7);
    assert!(!r3.identified);
    assert_eq!(r3.messages, vec!["You already know what this item is.".to_string()]);
    let r4 = identify_from_use(&mut kb, 7);
    assert!(r4.messages.is_empty());
    assert_eq!(get_identified_description(&kb, 8, "ring"), "unidentified ring");
    kb.mark_used(8);
    kb.mark_tested(8);
    kb.mark_tested(8);
    kb.mark_used(8);
    assert_eq!(get_identified_description(&kb, 8, "ring"), "ring (probably)");
    kb.add_hazard(8, "drains".to_string());
    kb.add_hazard(8, "drains".to_string());
    assert_eq!(kb.get_knowledge(8).unwrap().discovered_hazards.len(), 1);
    assert_eq!(kb.count_identified(), 2);
    let r = IdentificationResult::new().with_message("hello");
    assert_eq!(r.messages, vec!["hello".to_string()]);
}
