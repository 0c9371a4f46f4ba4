//! A small top-down cleaning game: the grid model, the player's interactions
//! with it, the per-frame decisions, what a frame draws, and the level
//! compiler that turns an editor export into a tile layout.

pub mod codegen;
pub mod geometry;
pub mod grid;
pub mod items;
pub mod level;
pub mod render;
pub mod state;
pub mod text;
