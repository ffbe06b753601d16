//! Simulation core of a top-down arcade shooter in the style of Berzerk:
//! player, enemies, bullets and walls, their collisions, the placement of
//! what is spawned, and the state machine that advances all of it once per
//! tick.
//!
//! Positions are whole arena units held in `i32`; a step that would leave
//! that range is not taken, and a bullet that tries dies. Time is counted in
//! microseconds. The simulation plays no sound and draws nothing: it hands
//! back the cues that became due and lets its state be read.
//!
//! The contracts speak of a game as a [`game::GameView`]. One function is
//! trusted rather than proved: the draw of a random number. Where a result
//! depends on such a draw, the contract states what holds of every outcome,
//! and the step that follows the draw is a function of its own with an
//! exact contract.

pub mod combat;
pub mod encounters;
pub mod game;
pub mod models;
pub mod music;
pub mod placement;
mod random;
pub mod tick;
