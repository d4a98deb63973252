//! The executable universe: a fixed-size torus of cells that advances one
//! generation at a time.

use vstd::prelude::*;
use vstd::string::StringExecFns;
use crate::cell::Cell;
use crate::grid::Grid;

verus! {

/// A grid of cells together with its fixed dimensions. The buffer always holds
/// `width * height` cells in row-major order.
pub struct Universe {
    width: u32,
    height: u32,
    cells: Vec<Cell>,
}

impl View for Universe {
    type V = Grid;

    closed spec fn view(&self) -> Grid {
        Grid { width: self.width as nat, height: self.height as nat, cells: self.cells@ }
    }
}

impl Universe {
    #[verifier::type_invariant]
    spec fn buffer_matches_dimensions(self) -> bool {
        self.cells@.len() == self.width * self.height
    }

    /// Entry `k` of the three offsets along an axis of the given extent:
    /// one step back (written as the extent less one), none, one step forward.
    spec fn offset(extent: nat, k: int) -> int {
        if k == 0 {
            extent - 1
        } else if k == 1 {
            0
        } else {
            1
        }
    }

    /// The term of the offset pair `(a, b)` if that pair comes before the pair
    /// `(i, j)` when the pairs are taken row offset by row offset, else nothing.
    spec fn term_before(self, row: int, column: int, a: int, b: int, i: int, j: int) -> int {
        if a < i || (a == i && b < j) {
            self@.neighbor_term(
                row,
                column,
                Self::offset(self@.height, a),
                Self::offset(self@.width, b),
            )
        } else {
            0
        }
    }

    /// The part of the neighbour count of `(row, column)` that the offset pairs
    /// before `(i, j)` add up to.
    spec fn counted_before(self, row: int, column: int, i: int, j: int) -> int {
        self.term_before(row, column, 0, 0, i, j) + self.term_before(row, column, 0, 1, i, j)
            + self.term_before(row, column, 0, 2, i, j) + self.term_before(row, column, 1, 0, i, j)
            + self.term_before(row, column, 1, 1, i, j) + self.term_before(row, column, 1, 2, i, j)
            + self.term_before(row, column, 2, 0, i, j) + self.term_before(row, column, 2, 1, i, j)
            + self.term_before(row, column, 2, 2, i, j)
    }

    /// Creates the 64 by 64 universe in which the cell at linear position `i`
    /// is alive exactly when `i` is a multiple of 2 or of 7.
    pub fn new() -> (universe: Universe)
        ensures
            universe@ == Grid::initial(),
            universe@.wf(),
            universe@.width == 64,
            universe@.height == 64,
            forall|i: int|
                0 <= i < 4096 ==> (#[trigger] universe@.cells[i] == Cell::Alive <==> (i % 2 == 0
                    || i % 7 == 0)),
    {
        let width: u32 = 64;
        let height: u32 = 64;
        let mut cells: Vec<Cell> = Vec::new();
        let mut i: u32 = 0;
        while i < width * height
            invariant
                width == 64,
                height == 64,
                i <= 4096,
                cells@.len() == i,
                forall|k: int| 0 <= k < i ==> cells@[k] == Cell::seed(k),
            decreases 4096 - i,
        {
            let cell = if i % 2 == 0 || i % 7 == 0 {
                Cell::Alive
            } else {
                Cell::Dead
            };
            cells.push(cell);
            i += 1;
        }
        assert(cells@ =~= Grid::initial().cells);
        Universe { width, height, cells }
    }

    /// Builds a universe of the given dimensions from its cells in row-major
    /// order. There is a universe exactly when the number of cells is
    /// `width * height`.
    pub fn from_cells(width: u32, height: u32, cells: Vec<Cell>) -> (universe: Option<Universe>)
        ensures
            universe is Some <==> cells@.len() == width * height,
            universe matches Some(u) ==> {
                &&& u@.width == width
                &&& u@.height == height
                &&& u@.cells == cells@
                &&& u@.wf()
            },
    {
        assert(width * height <= u64::MAX) by (nonlinear_arith)
            requires
                width <= u32::MAX,
                height <= u32::MAX,
        ;
        let expected: u64 = (width as u64) * (height as u64);
        if cells.len() as u64 == expected {
            Some(Universe { width, height, cells })
        } else {
            None
        }
    }

    /// The number of columns.
    pub fn width(&self) -> (width: u32)
        ensures
            width == self@.width,
    {
        self.width
    }

    /// The number of rows.
    pub fn height(&self) -> (height: u32)
        ensures
            height == self@.height,
    {
        self.height
    }

    /// The cells in row-major order, `width * height` of them.
    pub fn cells(&self) -> (cells: &[Cell])
        ensures
            cells@ == self@.cells,
            cells@.len() == self@.width * self@.height,
    {
        proof {
            use_type_invariant(self);
        }
        self.cells.as_slice()
    }

    /// The place of `(row, column)` in the row-major buffer. The position
    /// must lie inside the grid.
    pub fn get_index(&self, row: u32, column: u32) -> (index: usize)
        requires
            self@.in_bounds(row as int, column as int),
        ensures
            index == self@.index(row as int, column as int),
            index < self@.cells.len(),
    {
        proof {
            use_type_invariant(self);
            self@.lemma_index_of_position(row as int, column as int);
            assert(self@.cells.len() == self.cells.len() <= usize::MAX);
        }
        (row as usize) * (self.width as usize) + (column as usize)
    }

    /// Counts the live cells among the eight neighbours of `(row, column)` on
    /// the torus. The neighbours are reached by the row offsets
    /// `height - 1, 0, 1` and the column offsets `width - 1, 0, 1`, each sum
    /// taken modulo the extent; a pair of two zero offsets is passed over.
    /// The universe must have at least one row and one column; coordinates
    /// beyond the grid are wrapped like any other sum.
    pub fn live_neighbor_count(&self, row: u32, column: u32) -> (count: u8)
        requires
            self@.height > 0,
            self@.width > 0,
        ensures
            count == self@.live_neighbor_count(row as int, column as int),
            count <= 8,
    {
        let delta_rows: [u32; 3] = [self.height - 1, 0, 1];
        let delta_cols: [u32; 3] = [self.width - 1, 0, 1];
        let mut count: u8 = 0;
        let mut i: usize = 0;
        while i < 3
            invariant
                self.height > 0,
                self.width > 0,
                i <= 3,
                forall|k: int| 0 <= k < 3 ==> delta_rows[k] == Self::offset(self@.height, k),
                forall|k: int| 0 <= k < 3 ==> delta_cols[k] == Self::offset(self@.width, k),
                count == self.counted_before(row as int, column as int, i as int, 0),
                count <= 3 * i,
            decreases 3 - i,
        {
            let mut j: usize = 0;
            while j < 3
                invariant
                    self.height > 0,
                    self.width > 0,
                    i < 3,
                    j <= 3,
                    forall|k: int| 0 <= k < 3 ==> delta_rows[k] == Self::offset(self@.height, k),
                    forall|k: int| 0 <= k < 3 ==> delta_cols[k] == Self::offset(self@.width, k),
                    count == self.counted_before(row as int, column as int, i as int, j as int),
                    count <= 3 * i + j,
                decreases 3 - j,
            {
                let delta_row = delta_rows[i];
                let delta_col = delta_cols[j];
                if !(delta_row == 0 && delta_col == 0) {
                    let wrapped_row = (row as u64 + delta_row as u64) % (self.height as u64);
                    let wrapped_col = (column as u64 + delta_col as u64) % (self.width as u64);
                    let idx = self.get_index(wrapped_row as u32, wrapped_col as u32);
                    count += self.cells[idx].value();
                }
                j += 1;
            }
            i += 1;
        }
        count
    }

    /// Advances the universe by one generation. Every cell is judged by the
    /// neighbours it has in the current generation: a live cell with fewer
    /// than two or more than three live neighbours dies, a live cell with two
    /// or three lives on, and a dead cell with exactly three comes alive.
    pub fn tick(&mut self)
        ensures
            final(self)@ == old(self)@.tick(),
            final(self)@.wf(),
    {
        proof {
            use_type_invariant(&*self);
        }
        let mut next = self.cells.clone();
        let mut row: u32 = 0;
        while row < self.height
            invariant
                *self == *old(self),
                self@.wf(),
                row <= self.height,
                next@.len() == self@.cells.len(),
                forall|k: int|
                    0 <= k < self@.index(row as int, 0) ==> next@[k] == self@.tick().cells[k],
            decreases self.height - row,
        {
            let mut col: u32 = 0;
            while col < self.width
                invariant
                    *self == *old(self),
                    self@.wf(),
                    row < self.height,
                    col <= self.width,
                    next@.len() == self@.cells.len(),
                    forall|k: int|
                        0 <= k < self@.index(row as int, col as int) ==> next@[k]
                            == self@.tick().cells[k],
                decreases self.width - col,
            {
                let idx = self.get_index(row, col);
                let cell = self.cells[idx];
                let live_neighbors = self.live_neighbor_count(row, col);
                let next_cell = match (cell, live_neighbors) {
                    (Cell::Alive, x) if x < 2 => Cell::Dead,
                    (Cell::Alive, 2) | (Cell::Alive, 3) => Cell::Alive,
                    (Cell::Alive, x) if x > 3 => Cell::Dead,
                    (Cell::Dead, 3) => Cell::Alive,
                    (otherwise, _) => otherwise,
                };
                proof {
                    self@.lemma_index_of_position(row as int, col as int);
                }
                next.set(idx, next_cell);
                col += 1;
            }
            proof {
                assert(self@.index(row as int, self.width as int) == self@.index(row + 1, 0))
                    by (nonlinear_arith);
            }
            row += 1;
        }
        proof {
            assert(self@.index(self.height as int, 0) == self@.cells.len()) by (nonlinear_arith)
                requires
                    self@.wf(),
            ;
            assert(next@ =~= self@.tick().cells);
        }
        self.cells = next;
    }

    /// Renders the universe as text: one line per row, a hollow square for
    /// each dead cell and a filled square for each live one, every line ended
    /// by a line feed.
    pub fn render(&self) -> (text: String)
        ensures
            text@ == self@.render(),
    {
        proof {
            use_type_invariant(self);
            reveal_strlit("\u{25FB}");
            reveal_strlit("\u{25FC}");
            reveal_strlit("\n");
        }
        let ghost line = self.width as int + 1;
        let mut text = String::new();
        let mut row: u32 = 0;
        while row < self.height
            invariant
                self@.wf(),
                line == self.width + 1,
                row <= self.height,
                text@.len() == row * line,
                forall|p: int| 0 <= p < text@.len() ==> text@[p] == self@.render()[p],
                "\u{25FB}"@ == seq!['\u{25FB}'],
                "\u{25FC}"@ == seq!['\u{25FC}'],
                "\n"@ == seq!['\n'],
            decreases self.height - row,
        {
            let mut col: u32 = 0;
            while col < self.width
                invariant
                    self@.wf(),
                    line == self.width + 1,
                    row < self.height,
                    col <= self.width,
                    text@.len() == row * line + col,
                        forall|p: int| 0 <= p < text@.len() ==> text@[p] == self@.render()[p],
                    "\u{25FB}"@ == seq!['\u{25FB}'],
                    "\u{25FC}"@ == seq!['\u{25FC}'],
                decreases self.width - col,
            {
                let idx = self.get_index(row, col);
                let symbol = if self.cells[idx] == Cell::Dead {
                    "\u{25FB}"
                } else {
                    "\u{25FC}"
                };
                proof {
                    self@.lemma_render_position(row as int, col as int);
                }
                text.append(symbol);
                col += 1;
            }
            proof {
                self@.lemma_render_position(row as int, self.width as int);
                assert((row + 1) * line == row * line + self.width + 1) by (nonlinear_arith)
                    requires
                        line == self.width + 1,
                ;
            }
            text.append("\n");
            row += 1;
        }
        text
    }
}

} // verus!
