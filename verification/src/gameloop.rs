//! How a turn of the game loop and the game itself end.

use vstd::prelude::*;

verus! {

/// What a tick of the game loop leads to.
#[derive(Debug, Clone)]
pub enum GameLoopResult {
    /// Play goes on.
    Continue,
    /// The hero died, with the message of the death.
    PlayerDied(String),
    /// The player quit.
    PlayerQuit,
    /// The hero ascended.
    PlayerWon,
    /// Save the game and stop.
    SaveAndQuit,
}

/// How a game ended.
#[derive(Debug, Clone, Copy, PartialEq, Eq, Structural)]
pub enum DeathHow {
    /// Killed by something.
    Killed,
    /// Quit the game.
    Quit,
    /// Escaped the dungeon.
    Escaped,
    /// Ascended to demigod status.
    Ascended,
}

} // verus!
