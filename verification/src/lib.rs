//! Grid-maze walker: the movement, turning and collision rules of a
//! first-person maze game, in fixed-point arithmetic.

use vstd::prelude::*;

pub mod clock;
pub mod frames;
pub mod heading;
pub mod maze;
pub mod model;
pub mod settings;
pub mod turning;
pub mod units;
pub mod walking;
pub mod window;

verus! {

/// The top-level mode of the game.
#[derive(Clone, Copy, Debug, PartialEq, Eq, Hash, Structural)]
pub enum GameState {
    /// The title menu.
    Menu,
    /// Walking the maze.
    Maze,
}

impl Default for GameState {
    /// The game starts in the maze.
    fn default() -> (state: GameState)
        ensures
            state == GameState::Maze,
    {
        GameState::Maze
    }
}

} // verus!
