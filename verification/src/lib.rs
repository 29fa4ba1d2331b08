//! The simulation core of a falling-letters typing trainer.
//!
//! Letters fall from the top of the screen; typing a letter destroys the
//! lowest one that shows it, and a letter that reaches the ground costs a
//! life. The host calls [`game::Game::update`] once per frame with the time
//! that has passed, the size of the screen and the keys that went down, and
//! then draws what the game holds.
//!
//! Everything here is integer arithmetic. Time is counted in milliseconds,
//! lengths in micro-units (a millionth of a screen unit), and speeds in
//! micro-units per millisecond, so that a distance is exactly a speed times
//! a time. Screen dimensions are given in whole screen units.
//!
//! - [`levels`]: the level catalogue.
//! - [`entities`]: letters, sparks and the player.
//! - [`input`]: what the host reports for one frame.
//! - [`scoring`]: points, penalties and accuracy.
//! - [`steps`]: the steps of a frame that work on letters and sparks alone.
//! - [`game`]: the game and its state machine.
//! - [`model`]: the game as a mathematical value, and what a frame does to it.
//! - [`validity`]: the bounds that every game keeps.
//! - [`laws`]: what follows from the model, proved.

pub mod color;
pub mod entities;
pub mod game;
pub mod heading;
pub mod input;
pub mod laws;
pub mod levels;
pub mod model;
mod random;
pub mod scoring;
pub mod steps;
pub mod tally;
pub mod validity;
