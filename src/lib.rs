//! Scoring of a ten-pin bowling game from the sequence of its rolls.

pub mod frame;
pub mod game;
pub mod walk;

pub use frame::{Frame, FrameType};
pub use game::Game;
