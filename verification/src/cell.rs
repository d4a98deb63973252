//! The two-valued state of a single grid cell and the local rules that act on it.

use vstd::prelude::*;

verus! {

/// The state of one cell. `Dead` counts as 0 and `Alive` as 1 wherever cells
/// are summed.
#[derive(Clone, Copy, Debug, PartialEq, Eq, Structural)]
pub enum Cell {
    Dead,
    Alive,
}

impl Cell {
    /// The number a cell contributes to a neighbour count: 0 when dead, 1 when alive.
    pub open spec fn spec_value(self) -> u8 {
        match self {
            Cell::Dead => 0,
            Cell::Alive => 1,
        }
    }

    /// The state seeded at linear position `i` of a freshly created universe:
    /// alive exactly at the multiples of 2 and of 7.
    pub open spec fn seed(i: int) -> Cell {
        if i % 2 == 0 || i % 7 == 0 {
            Cell::Alive
        } else {
            Cell::Dead
        }
    }

    /// The state a cell takes in the next generation, given how many of its
    /// neighbours are alive now: a cell is alive in the next generation exactly
    /// when it has three live neighbours, or is alive and has two.
    pub open spec fn next(self, live_neighbors: int) -> Cell {
        if live_neighbors == 3 || (self == Cell::Alive && live_neighbors == 2) {
            Cell::Alive
        } else {
            Cell::Dead
        }
    }

    /// The character that stands for a cell in rendered text: a hollow square
    /// for a dead cell, a filled square for a live one.
    pub open spec fn glyph(self) -> char {
        match self {
            Cell::Dead => '\u{25FB}',
            Cell::Alive => '\u{25FC}',
        }
    }

    /// Returns the cell as a number, 0 for `Dead` and 1 for `Alive`.
    #[verifier::when_used_as_spec(spec_value)]
    pub fn value(self) -> (v: u8)
        ensures
            v == self.spec_value(),
    {
        match self {
            Cell::Dead => 0,
            Cell::Alive => 1,
        }
    }
}

} // verus!
