//! A verified frame-update model for a small interactive ball demo.
//!
//! The library computes, once per rendered frame, the next ball state from
//! the previous one, a snapshot of the keys currently held, and the current
//! viewport: bounds clamping of the position, key-driven movement and
//! radius, speed and color changes. The windowing collaborator that polls
//! keys and draws the ball lives outside the library and hands it plain
//! values.

pub mod state;
pub mod update;
pub mod laws;

mod rng;
