//! Core game rules of a NetHack-style roguelike: dungeon topology, traps,
//! special rooms and the magic subsystems, with their contracts proved.

pub mod rng;
pub mod text;
pub mod num;
pub mod object;
pub mod monster;
pub mod player;
pub mod dungeon;
pub mod magic;
pub mod gameloop;
