use nh_core::magic::metamagic::{
    metamagic_applicable, metamagic_cost_plan, MetamagicCostPlan, MetamagicKnowledge, MetamagicTraits, MetamagicType,
};

#[test]
fn test_metamagic_type_names() {
    assert_eq!(MetamagicType::Quicken.name(), "Quicken");
    assert_eq!(MetamagicType::Empower.name(), "Empower");
}

#[test]
fn test_metamagic_base_costs() {
    assert_eq!(MetamagicType::Subtle.base_cost(), 10);
    assert_eq!(MetamagicType::Quicken.base_cost(), 50);
}

#[test]
fn test_metamagic_knowledge_learning() {
    let mut knowledge = MetamagicKnowledge::new();
    assert!(!knowledge.knows(MetamagicType::Quicken));
    knowledge.learn(MetamagicType::Quicken);
    assert!(knowledge.knows(MetamagicType::Quicken));
    assert!(!knowledge.learn(MetamagicType::Quicken));
}

#[test]
fn test_metamagic_knowledge_mastery() {
    let mut knowledge = MetamagicKnowledge::new();
    knowledge.learn(MetamagicType::Empower);
    assert_eq!(knowledge.mastery_level(MetamagicType::Empower), 1);
    for _ in 0..50 {
        knowledge.record_use(MetamagicType::Empower);
    }
    assert!(knowledge.mastery_level(MetamagicType::Empower) > 1);
}

#[test]
fn test_mastery_caps_at_hundred_and_xp_counts() {
    let mut knowledge = MetamagicKnowledge::new();
    knowledge.learn(MetamagicType::Twin);
    for _ in 0..150 {
        knowledge.record_use(MetamagicType::Twin);
    }
    assert_eq!(knowledge.mastery_level(MetamagicType::Twin), 100);
    assert_eq!(knowledge.total_xp, 150);
    assert_eq!(knowledge.get_difficulty_reduction(MetamagicType::Twin), 10);
    knowledge.record_use(MetamagicType::Widen);
    assert_eq!(knowledge.total_xp, 150);
    assert_eq!(knowledge.mastery_level(MetamagicType::Widen), 0);
}

#[test]
fn test_learn_then_use_gives_two() {
    let mut knowledge = MetamagicKnowledge::default();
    knowledge.learn(MetamagicType::Still);
    knowledge.record_use(MetamagicType::Still);
    assert_eq!(knowledge.mastery_level(MetamagicType::Still), 2);
    assert_eq!(MetamagicType::all().len(), 10);
}

#[test]
fn test_traits_of_techniques() {
    let silent = MetamagicTraits::for_metamagic(MetamagicType::Silent);
    assert!(!silent.requires_verbal);
    assert!(silent.requires_somatic);
    assert_eq!(silent.difficulty_increase, 5);
    let twin = MetamagicTraits::for_metamagic(MetamagicType::Twin);
    assert_eq!(twin.target_count, 2);
    assert_eq!(twin.difficulty_increase, 10);
    assert!(MetamagicTraits::for_metamagic(MetamagicType::Careful).ignores_resistance);
    assert_eq!(MetamagicTraits::for_metamagic(MetamagicType::Subtle), MetamagicTraits::plain());
}

#[test]
fn test_combined_traits_stack_and_cap() {
    let all: Vec<MetamagicTraits> = MetamagicType::all().into_iter().map(MetamagicTraits::for_metamagic).collect();
    let c = MetamagicTraits::combine(&all);
    assert_eq!(c.difficulty_increase, 55);
    assert!(c.ignores_resistance && c.maximized);
    assert_eq!(c.target_count, 2);
    assert!(!c.requires_verbal && !c.requires_somatic);

    let many = vec![MetamagicTraits::for_metamagic(MetamagicType::Quicken); 12];
    assert_eq!(MetamagicTraits::combine(&many).difficulty_increase, 90);
    assert_eq!(MetamagicTraits::combine(&[]), MetamagicTraits::plain());
}

#[test]
fn test_metamagic_cost_plan_cases() {
    let mut knowledge = MetamagicKnowledge::new();
    knowledge.learn(MetamagicType::Silent);
    assert!(matches!(metamagic_cost_plan(&knowledge, &[]), MetamagicCostPlan::Base));
    assert!(matches!(
        metamagic_cost_plan(&knowledge, &[MetamagicType::Silent, MetamagicType::Quicken]),
        MetamagicCostPlan::UnknownTechnique
    ));
    match metamagic_cost_plan(&knowledge, &[MetamagicType::Silent]) {
        MetamagicCostPlan::Reduced(v) => assert_eq!(v, vec![(MetamagicType::Silent.base_cost(), 1)]),
        _ => panic!("expected a reduced cost"),
    }
}

#[test]
fn test_metamagic_applicable_needs_known_techniques() {
    let mut knowledge = MetamagicKnowledge::new();
    assert!(!metamagic_applicable(&knowledge, &[]));
    assert!(!metamagic_applicable(&knowledge, &[MetamagicType::Empower]));
    knowledge.learn(MetamagicType::Empower);
    assert!(metamagic_applicable(&knowledge, &[MetamagicType::Empower]));
    assert!(!metamagic_applicable(&knowledge, &[]));
}

#[test]
fn test_techniques_distinct_check() {
    let mut k = MetamagicKnowledge::new();
    assert!(k.techniques_distinct());
    k.known.push((MetamagicType::Quicken, 10));
    k.known.push((MetamagicType::Empower, 20));
    assert!(k.techniques_distinct());
    k.known.push((MetamagicType::Quicken, 30));
    assert!(!k.techniques_distinct());
}
