//! Conway's Game of Life on a bounded grid of age counters.
//!
//! A cell holds a non-negative age: 0 is a dead cell, and a positive value
//! counts the generations the cell has been alive. Neighbours are the eight
//! surrounding positions that lie inside the grid; there is no wraparound.

pub mod rules;
pub mod board;
pub mod laws;
mod random;
pub mod stage;

pub use board::{Board, Cell};
