//! Core logic of a terminal snake game: a segmented creature moves across a
//! bounded grid, grows when it eats food, and dies when it hits the border
//! ring or its own body.
//!
//! This crate holds the verified game model: coordinates and directions with
//! the reversal-prevention rule, the snake state machine (advance, grow,
//! direction change), collision detection against the border and the body,
//! food placement, and the per-tick update rule. Rendering and keyboard input
//! live outside the library and drive it through these functions.

pub mod collision;
pub mod food;
pub mod game;
pub mod snake;
