//! A two-paddle ball game on a character grid, as a deterministic simulation.
//!
//! Positions and velocities are fixed-point integers, so every rule of the game
//! (motion, walls, goals, paddles, the computer's steering, the player's keys and
//! the layout of a frame) is an exact function of the state, stated over integer
//! models and proved. Drawing, the keyboard, the clock and the random launch
//! angle belong to the caller.

pub mod fixed;
pub mod board;
pub mod model;
pub mod state;
pub mod frame;
pub mod laws;

pub use crate::board::{Board, Vector};
pub use crate::frame::{draw, Cell, Frame, Paint, Stroke};
pub use crate::model::Key;
pub use crate::state::{GameState, Outcome, Paddle};
