//! A toroidal Game of Life engine whose behaviour is stated in contracts and
//! proved against a mathematical model of the grid.

pub mod cell;
pub mod grid;
pub mod laws;
pub mod patterns;
pub mod universe;

pub use cell::Cell;
pub use grid::Grid;
pub use universe::Universe;
