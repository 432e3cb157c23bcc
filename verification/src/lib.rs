//! Core of a single-player grid snake game.
//!
//! The playfield is a fixed 40 x 40 grid whose border cells are walls. The
//! engine in [`snake`] owns the snake body, the apple, the velocity, the
//! score and the play / game-over state, and advances the simulation one
//! tick at a time. [`constants`] holds the cell and input vocabulary shared
//! with a renderer, and [`laws`] states the engine's global properties as
//! proved lemmas. Rendering, input polling and frame pacing are left to the
//! caller, which drives the engine once per frame.

pub mod constants;
pub mod laws;
mod rng;
pub mod snake;
