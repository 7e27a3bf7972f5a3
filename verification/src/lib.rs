//! Motion and animation of a single keyboard-driven sprite, and the
//! rectangles with which each frame of it is drawn.
//!
//! The player walks on an integer grid, one axis at a time, and cycles
//! through the frames of a sprite sheet while it moves. Every tick the host
//! hands the library the directional inputs that are held; the library
//! advances the player and says which cell of the sheet to draw where.

pub mod geometry;
pub mod direction;
pub mod input;
pub mod player;
pub mod laws;
pub mod compositor;
pub mod session;
