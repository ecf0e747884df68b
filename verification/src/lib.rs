//! The core of a small top-down driving game: the tile layers of the
//! background, where each tile lands on screen, and what the keyboard does to
//! the running game.

pub mod controls;
pub mod grid;
pub mod level;
pub mod placement;
pub mod tiles;
