//! A grid snake simulation: a chain of cells moves on a bounded grid, eats
//! food to grow, and starts a new round when it leaves the grid or runs into
//! itself.

pub mod direction;
pub mod game;
pub mod grid;
pub mod laws;
