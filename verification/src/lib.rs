//! Core of a single-player snake game: grid geometry, snake movement and
//! collision detection, food placement, the per-tick game session, and the
//! top-level screen state machine. Rendering and input decoding are left to
//! the surrounding program; this crate holds the verified rules.

pub mod food;
pub mod game;
pub mod grid;
pub mod screen;
pub mod snake;
