//! Session layer of a falling-block puzzle game: the fixed-timestep
//! scheduler, the match state machine with its reset gesture, and the
//! reducer that folds the rules engine's events into a drawable snapshot.

pub mod board;
pub mod input;
pub mod piece;
pub mod presentation;
pub mod schedule;
pub mod session;
pub mod skin;
