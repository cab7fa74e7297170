//! What holds of every board and of the generation that follows it.

use vstd::prelude::*;
use vstd::arithmetic::div_mod::lemma_add_mod_noop_right;
use vstd::arithmetic::div_mod::lemma_mod_add_multiples_vanish;
use crate::cell::Cell;
use crate::grid::Grid;

verus! {

/// Wherever a position lies, on the torus it is a cell of the board.
pub proof fn lemma_wrapped_on_board(grid: Grid, row: int, col: int)
    requires
        grid.wf(),
        grid.width > 0,
        grid.height > 0,
    ensures
        0 <= grid.index(row % (grid.height as int), col % (grid.width as int))
            < grid.cells.len(),
{
    grid.lemma_wrap(row, col);
    grid.lemma_index(row % (grid.height as int), col % (grid.width as int));
}

/// Whatever the offsets, a neighbour counts for nothing or for one.
pub proof fn lemma_neighbor_range(grid: Grid, row: int, col: int)
    requires
        grid.wf(),
        grid.width > 0,
        grid.height > 0,
    ensures
        forall|delta_row: int, delta_col: int|
            0 <= #[trigger] grid.neighbor(row, col, delta_row, delta_col) <= 1,
{
    assert forall|delta_row: int, delta_col: int|
        0 <= #[trigger] grid.neighbor(row, col, delta_row, delta_col) <= 1 by {
        lemma_wrapped_on_board(grid, row + delta_row, col + delta_col);
    }
}

/// On a board on which every cell is in one state, every neighbour counts
/// what that state counts, but for the offset `(0, 0)`, which counts nothing.
pub proof fn lemma_uniform_neighbors(grid: Grid, state: Cell, row: int, col: int)
    requires
        grid.wf(),
        grid.width > 0,
        grid.height > 0,
        grid.uniform(state),
    ensures
        forall|delta_row: int, delta_col: int|
            #[trigger] grid.neighbor(row, col, delta_row, delta_col) == if delta_row == 0
                && delta_col == 0 {
                0
            } else {
                state.weight()
            },
{
    assert forall|delta_row: int, delta_col: int|
        #[trigger] grid.neighbor(row, col, delta_row, delta_col) == if delta_row == 0
            && delta_col == 0 {
            0
        } else {
            state.weight()
        } by {
        lemma_wrapped_on_board(grid, row + delta_row, col + delta_col);
    }
}

/// A position has between no and eight live neighbours.
pub proof fn lemma_live_neighbors_range(grid: Grid, row: int, col: int)
    requires
        grid.wf(),
        grid.width > 0,
        grid.height > 0,
    ensures
        0 <= grid.live_neighbors(row, col) <= 8,
{
    lemma_neighbor_range(grid, row, col);
}

/// The next generation has the dimensions of this one, and as many cells.
pub proof fn lemma_next_keeps_shape(grid: Grid)
    requires
        grid.wf(),
    ensures
        grid.next().wf(),
        grid.next().width == grid.width,
        grid.next().height == grid.height,
        grid.next().cells.len() == grid.cells.len(),
{
}

/// A position beyond the board has the neighbours of the position that it is
/// on the torus.
pub proof fn lemma_neighbors_of_wrapped_position(grid: Grid, row: int, col: int)
    requires
        grid.width > 0,
        grid.height > 0,
    ensures
        grid.live_neighbors(row, col) == grid.live_neighbors(
            row % (grid.height as int),
            col % (grid.width as int),
        ),
{
    let h = grid.height as int;
    let w = grid.width as int;
    assert forall|delta_row: int, delta_col: int|
        #[trigger] grid.neighbor(row, col, delta_row, delta_col) == grid.neighbor(
            row % h,
            col % w,
            delta_row,
            delta_col,
        ) by {
        lemma_add_mod_noop_right(delta_row, row, h);
        lemma_add_mod_noop_right(delta_col, col, w);
        assert(row + delta_row == delta_row + row);
        assert(col + delta_col == delta_col + col);
        assert(row % h + delta_row == delta_row + row % h);
        assert(col % w + delta_col == delta_col + col % w);
    }
}

/// On a board of at least two rows and two columns, the neighbours of a
/// position are the eight positions one step from it in row, in column or in
/// both, where a step over an edge of the board comes in at the opposite edge.
pub proof fn lemma_neighbors_are_adjacent(grid: Grid, row: int, col: int)
    requires
        grid.wf(),
        grid.width >= 2,
        grid.height >= 2,
    ensures
        grid.live_neighbors(row, col) == grid.wrapped(row - 1, col - 1).weight()
            + grid.wrapped(row - 1, col).weight()
            + grid.wrapped(row - 1, col + 1).weight()
            + grid.wrapped(row, col - 1).weight()
            + grid.wrapped(row, col + 1).weight()
            + grid.wrapped(row + 1, col - 1).weight()
            + grid.wrapped(row + 1, col).weight()
            + grid.wrapped(row + 1, col + 1).weight(),
{
    lemma_mod_add_multiples_vanish(row - 1, grid.height as int);
    lemma_mod_add_multiples_vanish(col - 1, grid.width as int);
    assert(row + (grid.height - 1) == grid.height + (row - 1));
    assert(col + (grid.width - 1) == grid.width + (col - 1));
}

/// The neighbourhood wraps round the edges of the board: whatever the size of
/// the board, the cell in the first row and first column counts the cell in
/// the last row and last column, the cell in the last row of its own column,
/// and the cell in the last column of its own row.
pub proof fn lemma_corner_sees_across_edges(grid: Grid)
    requires
        grid.wf(),
        grid.width > 0,
        grid.height > 0,
    ensures
        grid.live_neighbors(0, 0) >= grid.cell(grid.height - 1, grid.width - 1).weight(),
        grid.live_neighbors(0, 0) >= grid.cell(grid.height - 1, 0).weight(),
        grid.live_neighbors(0, 0) >= grid.cell(0, grid.width - 1).weight(),
{
    let h = grid.height as int;
    let w = grid.width as int;
    lemma_neighbor_range(grid, 0, 0);
    assert((h - 1) % h == h - 1 && 0int % h == 0 && (h == 1 ==> 1int % h == 0))
        by (nonlinear_arith)
        requires
            h >= 1,
    ;
    assert((w - 1) % w == w - 1 && 0int % w == 0 && (w == 1 ==> 1int % w == 0))
        by (nonlinear_arith)
        requires
            w >= 1,
    ;
}

/// On a board of at least two rows and two columns, the neighbours of the
/// cell in the first row and first column are the cells in the last, first
/// and second row of the last, first and second column, the cell itself left
/// out: eight cells, each counted once.
pub proof fn lemma_corner_neighbors(grid: Grid)
    requires
        grid.wf(),
        grid.width >= 2,
        grid.height >= 2,
    ensures
        grid.live_neighbors(0, 0) == grid.cell(grid.height - 1, grid.width - 1).weight()
            + grid.cell(grid.height - 1, 0).weight()
            + grid.cell(grid.height - 1, 1).weight()
            + grid.cell(0, grid.width - 1).weight()
            + grid.cell(0, 1).weight()
            + grid.cell(1, grid.width - 1).weight()
            + grid.cell(1, 0).weight()
            + grid.cell(1, 1).weight(),
{
    let h = grid.height as int;
    let w = grid.width as int;
    assert((h - 1) % h == h - 1 && 0int % h == 0 && 1int % h == 1) by (nonlinear_arith)
        requires
            h >= 2,
    ;
    assert((w - 1) % w == w - 1 && 0int % w == 0 && 1int % w == 1) by (nonlinear_arith)
        requires
            w >= 2,
    ;
}

/// No life comes from nothing: a board on which every cell is dead is
/// followed by a board on which every cell is dead.
pub proof fn lemma_dead_board_stays_dead(grid: Grid)
    requires
        grid.wf(),
        grid.uniform(Cell::Dead),
    ensures
        grid.next().uniform(Cell::Dead),
{
    assert forall|i: int| 0 <= i < grid.next().cells.len() implies grid.next().cells[i]
        == Cell::Dead by {
        grid.lemma_position(i);
        let row = i / (grid.width as int);
        let col = i % (grid.width as int);
        lemma_uniform_neighbors(grid, Cell::Dead, row, col);
        assert(grid.live_neighbors(row, col) == 0);
    }
}

/// A live cell with no live neighbour dies.
pub proof fn lemma_lonely_cell_dies(grid: Grid, row: int, col: int)
    requires
        grid.wf(),
        grid.contains(row, col),
        grid.cell(row, col) is Alive,
        grid.live_neighbors(row, col) == 0,
    ensures
        grid.next().cell(row, col) is Dead,
{
    grid.lemma_next_cell_at(row, col);
}

/// A dead cell comes alive exactly if it has three live neighbours: with two
/// of them, or four, or any other number, it stays dead.
pub proof fn lemma_birth_needs_three(grid: Grid, row: int, col: int)
    requires
        grid.wf(),
        grid.contains(row, col),
        grid.cell(row, col) is Dead,
    ensures
        grid.next().cell(row, col) is Alive <==> grid.live_neighbors(row, col) == 3,
{
    grid.lemma_next_cell_at(row, col);
}

/// A live cell lives on exactly if it has two or three live neighbours.
pub proof fn lemma_survival_needs_two_or_three(grid: Grid, row: int, col: int)
    requires
        grid.wf(),
        grid.contains(row, col),
        grid.cell(row, col) is Alive,
    ensures
        grid.next().cell(row, col) is Alive <==> (grid.live_neighbors(row, col) == 2
            || grid.live_neighbors(row, col) == 3),
{
    grid.lemma_next_cell_at(row, col);
}

/// On a board of at least two rows and two columns on which every cell is
/// alive, every cell has eight live neighbours.
pub proof fn lemma_full_board_neighbors(grid: Grid, row: int, col: int)
    requires
        grid.wf(),
        grid.uniform(Cell::Alive),
        grid.width >= 2,
        grid.height >= 2,
    ensures
        grid.live_neighbors(row, col) == 8,
{
    lemma_uniform_neighbors(grid, Cell::Alive, row, col);
}

/// A board on which every cell is alive is followed by a board on which every
/// cell is dead: each cell has more than three live neighbours.
pub proof fn lemma_full_board_dies(grid: Grid)
    requires
        grid.wf(),
        grid.uniform(Cell::Alive),
    ensures
        grid.next().uniform(Cell::Dead),
{
    assert forall|i: int| 0 <= i < grid.next().cells.len() implies grid.next().cells[i]
        == Cell::Dead by {
        grid.lemma_position(i);
        let row = i / (grid.width as int);
        let col = i % (grid.width as int);
        lemma_uniform_neighbors(grid, Cell::Alive, row, col);
        assert(grid.live_neighbors(row, col) >= 5);
    }
}

} // verus!
