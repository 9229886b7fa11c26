//! Conway's Game of Life: a fixed-size two-dimensional cellular automaton
//! with the classic birth/survival rule on the 8-cell Moore neighborhood.
//!
//! The grid does not wrap: coordinates outside the board read as permanently
//! dead cells. Each generation is computed from a snapshot of the previous
//! one, so no cell's transition ever observes a partially updated grid.

pub mod board;
pub mod cell;
pub mod cell_state;
pub mod game_state;
pub mod laws;
pub mod pattern;
mod random;
pub mod rules;
