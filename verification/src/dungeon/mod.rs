//! Dungeon levels, traps, special rooms and the dungeon topology.

pub mod level;
pub mod trap;
pub mod topology;
pub mod special_rooms;
