//! The magic subsystems: spell components, rituals, identification,
//! enchantment, curses, potions, rings, detection and artifacts.

pub mod components;
pub mod ritual_casting;
pub mod identification;
pub mod enchantment;
pub mod cursed_items;
pub mod artifacts;
pub mod detect;
pub mod potion;
pub mod rings;
pub mod potions;
pub mod property_binding;
pub mod equipment;
pub mod advanced;
pub mod casting_stances;
pub mod metamagic;
pub mod genocide;
pub mod elemental_reactions;
pub mod spell;
pub mod school_specialization;
pub mod mastery_advancement;
pub mod advanced_spells;
