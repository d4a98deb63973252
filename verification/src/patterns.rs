//! Well-known patterns and what a generation step does to them on a torus:
//! a lone cell dies, a two-by-two block stands still, and three cells in a
//! line turn about their centre and come back after two steps.

use vstd::prelude::*;
use crate::cell::Cell;
use crate::grid::Grid;
use crate::laws::lemma_tick_by_position;
use crate::laws::lemma_wrapped_steps;

verus! {

/// The only live cell of the grid is the one at `(at_row, at_column)`.
pub open spec fn is_lone_cell(grid: Grid, at_row: int, at_column: int) -> bool {
    forall|row: int, column: int|
        grid.in_bounds(row, column) ==> (#[trigger] grid.cell(row, column) == Cell::Alive
            <==> row == at_row && column == at_column)
}

/// `(row, column)` is one of the four cells of the two-by-two block whose
/// first cell is `(top, left)`. The block's second row and second column are
/// one step further on the torus, so a block may straddle an edge.
pub open spec fn in_block(grid: Grid, top: int, left: int, row: int, column: int) -> bool {
    &&& row == top || row == (top + 1) % (grid.height as int)
    &&& column == left || column == (left + 1) % (grid.width as int)
}

/// The live cells of the grid are exactly the four cells of the block at
/// `(top, left)`.
pub open spec fn is_lone_block(grid: Grid, top: int, left: int) -> bool {
    forall|row: int, column: int|
        grid.in_bounds(row, column) ==> (#[trigger] grid.cell(row, column) == Cell::Alive
            <==> in_block(grid, top, left, row, column))
}

/// `(row, column)` is one of the three cells that lie side by side in row
/// `mid_row`, centred on column `mid_column`.
pub open spec fn in_row_blinker(grid: Grid, mid_row: int, mid_column: int, row: int, column: int)
    -> bool {
    let w = grid.width as int;
    &&& row == mid_row
    &&& column == (mid_column + (w - 1)) % w || column == mid_column
        || column == (mid_column + 1) % w
}

/// `(row, column)` is one of the three cells that lie one above the other in
/// column `mid_column`, centred on row `mid_row`.
pub open spec fn in_column_blinker(
    grid: Grid,
    mid_row: int,
    mid_column: int,
    row: int,
    column: int,
) -> bool {
    let h = grid.height as int;
    &&& column == mid_column
    &&& row == (mid_row + (h - 1)) % h || row == mid_row || row == (mid_row + 1) % h
}

/// The live cells of the grid are exactly three in a row, centred on
/// `(mid_row, mid_column)`.
pub open spec fn is_row_blinker(grid: Grid, mid_row: int, mid_column: int) -> bool {
    forall|row: int, column: int|
        grid.in_bounds(row, column) ==> (#[trigger] grid.cell(row, column) == Cell::Alive
            <==> in_row_blinker(grid, mid_row, mid_column, row, column))
}

/// The live cells of the grid are exactly three in a column, centred on
/// `(mid_row, mid_column)`.
pub open spec fn is_column_blinker(grid: Grid, mid_row: int, mid_column: int) -> bool {
    forall|row: int, column: int|
        grid.in_bounds(row, column) ==> (#[trigger] grid.cell(row, column) == Cell::Alive
            <==> in_column_blinker(grid, mid_row, mid_column, row, column))
}

/// A grid of at least two rows and two columns whose only live cell is
/// `(at_row, at_column)` holds no live cell after a generation step: the
/// live cell has no live neighbour, and no dead cell has exactly three.
pub proof fn lemma_lone_cell_leaves_dead_grid(grid: Grid, at_row: int, at_column: int)
    requires
        grid.wf(),
        grid.width >= 2,
        grid.height >= 2,
        grid.in_bounds(at_row, at_column),
        is_lone_cell(grid, at_row, at_column),
    ensures
        forall|i: int| 0 <= i < grid.cells.len() ==> grid.tick().cells[i] == Cell::Dead,
{
    let w = grid.width as int;
    let h = grid.height as int;
    assert forall|i: int| 0 <= i < grid.cells.len() implies grid.tick().cells[i]
        == Cell::Dead by {
        grid.lemma_position_of_index(i);
        lemma_wrapped_steps(i / w, h);
        lemma_wrapped_steps(i % w, w);
    }
}

/// A two-by-two block of live cells, alone on a grid of at least four rows
/// and four columns, is left unchanged by a generation step: a cell of the
/// block has exactly three live neighbours, and no other cell has three.
pub proof fn lemma_block_is_still(grid: Grid, top: int, left: int)
    requires
        grid.wf(),
        grid.width >= 4,
        grid.height >= 4,
        grid.in_bounds(top, left),
        is_lone_block(grid, top, left),
    ensures
        grid.tick() == grid,
{
    let w = grid.width as int;
    let h = grid.height as int;
    lemma_wrapped_steps(top, h);
    lemma_wrapped_steps(left, w);
    assert forall|i: int| 0 <= i < grid.cells.len() implies grid.tick().cells[i]
        == grid.cells[i] by {
        grid.lemma_position_of_index(i);
        lemma_wrapped_steps(i / w, h);
        lemma_wrapped_steps(i % w, w);
    }
    assert(grid.tick().cells =~= grid.cells);
}

/// Three live cells in a row, alone on a grid of at least three rows and four
/// columns, become three in a column about the same centre.
pub proof fn lemma_row_blinker_turns(grid: Grid, mid_row: int, mid_column: int)
    requires
        grid.wf(),
        grid.width >= 4,
        grid.height >= 3,
        grid.in_bounds(mid_row, mid_column),
        is_row_blinker(grid, mid_row, mid_column),
    ensures
        is_column_blinker(grid.tick(), mid_row, mid_column),
{
    let w = grid.width as int;
    let h = grid.height as int;
    let next = grid.tick();
    lemma_wrapped_steps(mid_row, h);
    lemma_wrapped_steps(mid_column, w);
    assert forall|row: int, column: int| next.in_bounds(row, column) implies (
        #[trigger] next.cell(row, column) == Cell::Alive
            <==> in_column_blinker(next, mid_row, mid_column, row, column)
    ) by {
        lemma_tick_by_position(grid, row, column);
        lemma_wrapped_steps(row, h);
        lemma_wrapped_steps(column, w);
    }
}

/// Three live cells in a column, alone on a grid of at least four rows and
/// three columns, become three in a row about the same centre.
pub proof fn lemma_column_blinker_turns(grid: Grid, mid_row: int, mid_column: int)
    requires
        grid.wf(),
        grid.width >= 3,
        grid.height >= 4,
        grid.in_bounds(mid_row, mid_column),
        is_column_blinker(grid, mid_row, mid_column),
    ensures
        is_row_blinker(grid.tick(), mid_row, mid_column),
{
    let w = grid.width as int;
    let h = grid.height as int;
    let next = grid.tick();
    lemma_wrapped_steps(mid_row, h);
    lemma_wrapped_steps(mid_column, w);
    assert forall|row: int, column: int| next.in_bounds(row, column) implies (
        #[trigger] next.cell(row, column) == Cell::Alive
            <==> in_row_blinker(next, mid_row, mid_column, row, column)
    ) by {
        lemma_tick_by_position(grid, row, column);
        lemma_wrapped_steps(row, h);
        lemma_wrapped_steps(column, w);
    }
}

/// A generation step is not idempotent, yet some grids come back: three live
/// cells in a row, alone on a grid of at least four rows and four columns,
/// differ from the grid one step later and equal the grid two steps later.
pub proof fn lemma_blinker_has_period_two(grid: Grid, mid_row: int, mid_column: int)
    requires
        grid.wf(),
        grid.width >= 4,
        grid.height >= 4,
        grid.in_bounds(mid_row, mid_column),
        is_row_blinker(grid, mid_row, mid_column),
    ensures
        grid.tick() != grid,
        grid.tick().tick() == grid,
{
    let w = grid.width as int;
    let h = grid.height as int;
    let once = grid.tick();
    let twice = once.tick();
    lemma_row_blinker_turns(grid, mid_row, mid_column);
    lemma_column_blinker_turns(once, mid_row, mid_column);
    assert forall|i: int| 0 <= i < grid.cells.len() implies twice.cells[i] == grid.cells[i] by {
        grid.lemma_position_of_index(i);
        twice.lemma_position_of_index(i);
        let row = i / w;
        let column = i % w;
        assert(twice.cell(row, column) == Cell::Alive
            <==> in_row_blinker(twice, mid_row, mid_column, row, column));
    }
    assert(twice.cells =~= grid.cells);
    lemma_wrapped_steps(mid_row, h);
    lemma_wrapped_steps(mid_column, w);
    let east = (mid_column + 1) % w;
    assert(grid.cell(mid_row, east) == Cell::Alive);
    assert(once.cell(mid_row, east) == Cell::Dead);
}

} // verus!
