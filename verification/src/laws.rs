//! What holds of every grid: the shape of the buffer across generations, the
//! range of the neighbour count, the rules of the generation step and the
//! step read by coordinates.

use vstd::prelude::*;
use vstd::arithmetic::div_mod::lemma_add_mod_noop_right;
use vstd::arithmetic::div_mod::lemma_mod_add_multiples_vanish;
use vstd::arithmetic::div_mod::lemma_mod_self_0;
use vstd::arithmetic::div_mod::lemma_small_mod;
use crate::cell::Cell;
use crate::grid::Grid;

verus! {

/// The freshly created grid holds one cell for each of its 64 times 64
/// positions, and the cell at place `i` is alive exactly when `i` is a
/// multiple of 2 or of 7.
pub proof fn lemma_initial_grid()
    ensures
        Grid::initial().wf(),
        Grid::initial().cells.len() == 4096,
        forall|i: int|
            0 <= i < 4096 ==> (#[trigger] Grid::initial().cells[i] == Cell::Alive <==> (i % 2
                == 0 || i % 7 == 0)),
{
}

/// A generation step changes neither the dimensions nor the length of the
/// buffer, so a buffer of `width * height` cells stays one.
pub proof fn lemma_tick_preserves_shape(grid: Grid)
    ensures
        grid.tick().width == grid.width,
        grid.tick().height == grid.height,
        grid.tick().cells.len() == grid.cells.len(),
        grid.wf() ==> grid.tick().wf(),
{
}

/// The neighbour count of any position of any grid lies between 0 and 8.
pub proof fn lemma_live_neighbor_count_range(grid: Grid, row: int, column: int)
    ensures
        0 <= grid.live_neighbor_count(row, column) <= 8,
{
}

/// The next state of a cell, rule by rule: a live cell with fewer than two
/// live neighbours dies, one with two or three lives on, one with more than
/// three dies, a dead cell with exactly three comes alive, and in every other
/// case the cell stays as it is.
pub proof fn lemma_next_by_rule(cell: Cell, n: int)
    ensures
        cell == Cell::Alive && n < 2 ==> cell.next(n) == Cell::Dead,
        cell == Cell::Alive && (n == 2 || n == 3) ==> cell.next(n) == Cell::Alive,
        cell == Cell::Alive && n > 3 ==> cell.next(n) == Cell::Dead,
        cell == Cell::Dead && n == 3 ==> cell.next(n) == Cell::Alive,
        cell == Cell::Dead && n != 3 ==> cell.next(n) == cell,
{
}

/// Read by coordinates, a generation step gives every position the next
/// state of its cell, judged by the neighbours the cell had before the step.
pub proof fn lemma_tick_by_position(grid: Grid, row: int, column: int)
    requires
        grid.wf(),
        grid.in_bounds(row, column),
    ensures
        grid.tick().cell(row, column) == grid.next_cell(row, column),
{
    grid.lemma_index_of_position(row, column);
}

/// A live cell none of whose neighbours is alive is dead after a generation
/// step.
pub proof fn lemma_isolated_cell_dies(grid: Grid, row: int, column: int)
    requires
        grid.wf(),
        grid.in_bounds(row, column),
        grid.cell(row, column) == Cell::Alive,
        grid.live_neighbor_count(row, column) == 0,
    ensures
        grid.tick().cell(row, column) == Cell::Dead,
{
    lemma_tick_by_position(grid, row, column);
}

/// On a grid with at least two rows and two columns the neighbour count of a
/// position is the number of live cells among the eight positions one step
/// away from it in each direction, where a step over an edge comes back in on
/// the opposite side.
pub proof fn lemma_count_on_torus(grid: Grid, row: int, column: int)
    requires
        grid.height >= 2,
        grid.width >= 2,
    ensures
        grid.live_neighbor_count(row, column) == {
            grid.wrapped_cell(row - 1, column - 1).value()
                + grid.wrapped_cell(row - 1, column).value()
                + grid.wrapped_cell(row - 1, column + 1).value()
                + grid.wrapped_cell(row, column - 1).value()
                + grid.wrapped_cell(row, column + 1).value()
                + grid.wrapped_cell(row + 1, column - 1).value()
                + grid.wrapped_cell(row + 1, column).value()
                + grid.wrapped_cell(row + 1, column + 1).value()
        },
{
    lemma_mod_add_multiples_vanish(row - 1, grid.height as int);
    lemma_mod_add_multiples_vanish(column - 1, grid.width as int);
}

/// The neighbour count looks only at where a position comes to on the torus:
/// coordinates beyond the grid count as the position they wrap to.
pub proof fn lemma_count_of_wrapped_position(grid: Grid, row: int, column: int)
    requires
        grid.height > 0,
        grid.width > 0,
    ensures
        grid.live_neighbor_count(row, column) == grid.live_neighbor_count(
            row % (grid.height as int),
            column % (grid.width as int),
        ),
{
    let h = grid.height as int;
    let w = grid.width as int;
    lemma_add_mod_noop_right(h - 1, row, h);
    lemma_add_mod_noop_right(0, row, h);
    lemma_add_mod_noop_right(1, row, h);
    lemma_add_mod_noop_right(w - 1, column, w);
    lemma_add_mod_noop_right(0, column, w);
    lemma_add_mod_noop_right(1, column, w);
}

/// On an axis of extent `n`, stepping back by one, written as stepping
/// forward by `n - 1`, and stepping forward by one both stay on the axis and
/// wrap around its ends.
pub proof fn lemma_wrapped_steps(x: int, n: int)
    requires
        0 <= x < n,
    ensures
        (x + (n - 1)) % n == (if x == 0 { n - 1 } else { x - 1 }),
        (x + 0) % n == x,
        (x + 1) % n == (if x == n - 1 { 0 } else { x + 1 }),
{
    lemma_small_mod(x as nat, n as nat);
    if x == 0 {
        lemma_small_mod((n - 1) as nat, n as nat);
    } else {
        lemma_mod_add_multiples_vanish(x - 1, n);
        lemma_small_mod((x - 1) as nat, n as nat);
    }
    if x == n - 1 {
        lemma_mod_self_0(n);
    } else {
        lemma_small_mod((x + 1) as nat, n as nat);
    }
}

} // verus!
