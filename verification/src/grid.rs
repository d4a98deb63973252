//! The mathematical model of a universe: a torus of cells held as one row-major
//! sequence, with the neighbour count, the generation step and the rendered text
//! stated over it. Every contract of the executable code speaks of this model.

use vstd::prelude::*;
use vstd::arithmetic::div_mod::lemma_fundamental_div_mod;
use vstd::arithmetic::div_mod::lemma_fundamental_div_mod_converse;
use vstd::arithmetic::div_mod::lemma_mod_bound;
use crate::cell::Cell;

verus! {

/// A grid of `height` rows and `width` columns, stored row by row in `cells`.
pub struct Grid {
    pub width: nat,
    pub height: nat,
    pub cells: Seq<Cell>,
}

impl Grid {
    /// The buffer holds exactly one cell for each position of the grid.
    pub open spec fn wf(self) -> bool {
        self.cells.len() == self.width * self.height
    }

    /// `row` and `column` name a position of the grid.
    pub open spec fn in_bounds(self, row: int, column: int) -> bool {
        0 <= row < self.height && 0 <= column < self.width
    }

    /// The row-major position of `(row, column)` in `cells`.
    pub open spec fn index(self, row: int, column: int) -> int {
        row * self.width + column
    }

    /// The cell at `(row, column)`.
    pub open spec fn cell(self, row: int, column: int) -> Cell {
        self.cells[self.index(row, column)]
    }

    /// The cell at the position that `(row, column)` comes to when each
    /// coordinate is wrapped around its axis.
    pub open spec fn wrapped_cell(self, row: int, column: int) -> Cell {
        self.cell(row % (self.height as int), column % (self.width as int))
    }

    /// What one pair of offsets adds to the neighbour count of `(row, column)`:
    /// nothing when both offsets are zero, otherwise the value of the cell that
    /// the offsets reach after wrapping around the edges.
    pub open spec fn neighbor_term(self, row: int, column: int, delta_row: int, delta_col: int)
        -> int {
        if delta_row == 0 && delta_col == 0 {
            0
        } else {
            self.cell(
                (row + delta_row) % (self.height as int),
                (column + delta_col) % (self.width as int),
            ).value() as int
        }
    }

    /// The number of live cells around `(row, column)`: the sum of the terms of
    /// the nine pairs taken from the row offsets `height - 1, 0, 1` and the
    /// column offsets `width - 1, 0, 1`. Stepping back by one is written as
    /// stepping forward by the extent less one, so no offset is negative. On a
    /// grid with a single row or column the first offset is itself zero, and
    /// the pairs it forms with a zero add nothing either.
    pub open spec fn live_neighbor_count(self, row: int, column: int) -> int {
        let up = self.height - 1;
        let left = self.width - 1;
        self.neighbor_term(row, column, up, left)
            + self.neighbor_term(row, column, up, 0)
            + self.neighbor_term(row, column, up, 1)
            + self.neighbor_term(row, column, 0, left)
            + self.neighbor_term(row, column, 0, 0)
            + self.neighbor_term(row, column, 0, 1)
            + self.neighbor_term(row, column, 1, left)
            + self.neighbor_term(row, column, 1, 0)
            + self.neighbor_term(row, column, 1, 1)
    }

    /// The state of `(row, column)` one generation later.
    pub open spec fn next_cell(self, row: int, column: int) -> Cell {
        self.cell(row, column).next(self.live_neighbor_count(row, column))
    }

    /// The grid one generation later: same dimensions, and every cell replaced
    /// by its next state, each computed from this generation alone.
    pub open spec fn tick(self) -> Grid {
        Grid {
            width: self.width,
            height: self.height,
            cells: Seq::new(
                self.cells.len(),
                |i: int| self.next_cell(i / (self.width as int), i % (self.width as int)),
            ),
        }
    }

    /// The freshly created grid: 64 by 64, each cell seeded from its position.
    pub open spec fn initial() -> Grid {
        Grid { width: 64, height: 64, cells: Seq::new(4096, |i: int| Cell::seed(i)) }
    }

    /// The rendered text: one line per row, each line holding the glyphs of
    /// the row's cells in column order and ending in a line feed.
    pub open spec fn render(self) -> Seq<char> {
        Seq::new(
            self.height * (self.width + 1),
            |p: int|
                {
                    let line = self.width as int + 1;
                    let row = p / line;
                    let column = p % line;
                    if column == self.width {
                        '\n'
                    } else {
                        self.cell(row, column).glyph()
                    }
                },
        )
    }

    /// In a well-formed grid every position has a place inside the buffer, and
    /// dividing that place by the width gives the position back.
    pub proof fn lemma_index_of_position(self, row: int, column: int)
        requires
            self.wf(),
            self.in_bounds(row, column),
        ensures
            0 <= self.index(row, column) < self.cells.len(),
            self.index(row, column) / (self.width as int) == row,
            self.index(row, column) % (self.width as int) == column,
    {
        let w = self.width as int;
        let h = self.height as int;
        assert(0 <= row * w && row * w + column < w * h) by (nonlinear_arith)
            requires
                0 <= row < h,
                0 <= column < w,
        ;
        lemma_fundamental_div_mod_converse(row * w + column, w, row, column);
    }

    /// In a well-formed grid every place of the buffer belongs to exactly one
    /// position: its quotient and remainder by the width.
    pub proof fn lemma_position_of_index(self, i: int)
        requires
            self.wf(),
            0 <= i < self.cells.len(),
        ensures
            self.in_bounds(i / (self.width as int), i % (self.width as int)),
            self.index(i / (self.width as int), i % (self.width as int)) == i,
    {
        let w = self.width as int;
        let h = self.height as int;
        assert(w > 0) by (nonlinear_arith)
            requires
                0 <= w,
                0 <= i < w * h,
        ;
        lemma_fundamental_div_mod(i, w);
        lemma_mod_bound(i, w);
        let q = i / w;
        let r = i % w;
        assert(0 <= q < h && q * w + r == i) by (nonlinear_arith)
            requires
                i == w * q + r,
                0 <= r < w,
                0 <= i < w * h,
        ;
    }

    /// The rendered text holds `width + 1` characters for each row. The
    /// character at column `column` of line `row` sits at place
    /// `row * (width + 1) + column`; the line feed of the row is its column
    /// `width`.
    pub proof fn lemma_render_position(self, row: int, column: int)
        requires
            0 <= row < self.height,
            0 <= column <= self.width,
        ensures
            self.render().len() == self.height * (self.width + 1),
            0 <= row * (self.width + 1) + column < self.render().len(),
            self.render()[row * (self.width + 1) + column] == (if column == self.width {
                '\n'
            } else {
                self.cell(row, column).glyph()
            }),
    {
        let line = self.width as int + 1;
        let h = self.height as int;
        let p = row * line + column;
        assert(0 <= row * line && p < h * line) by (nonlinear_arith)
            requires
                0 <= row < h,
                0 <= column < line,
                p == row * line + column,
        ;
        lemma_fundamental_div_mod_converse(p, line, row, column);
    }
}

} // verus!
