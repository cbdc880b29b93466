use nh_core::magic::advanced_spells::CastingOptions;

#[test]
fn test_casting_options_default() {
    let options = CastingOptions::default();
    assert!(options.metamagics.is_empty());
    assert_eq!(options.overcharge_mana, 0);
    assert!(!options.channeling && !options.ritual);
}
