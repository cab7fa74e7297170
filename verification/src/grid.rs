//! The board as a mathematical value: its dimensions, its cells in row-major
//! order, the neighbourhood of a position on the torus, and the generation
//! that follows.

use vstd::prelude::*;
use vstd::arithmetic::div_mod::lemma_fundamental_div_mod_converse;
use vstd::arithmetic::div_mod::lemma_mod_bound;
use crate::cell::Cell;

verus! {

/// One generation: `width` columns, `height` rows, and the cell at
/// row `r` and column `c` stored at position `r * width + c`.
pub struct Grid {
    pub width: nat,
    pub height: nat,
    pub cells: Seq<Cell>,
}

impl Grid {
    /// The board holds exactly one cell for each position.
    pub open spec fn wf(self) -> bool {
        self.cells.len() == self.width * self.height
    }

    /// Whether `(row, col)` is a position on the board.
    pub open spec fn contains(self, row: int, col: int) -> bool {
        0 <= row < self.height && 0 <= col < self.width
    }

    /// Where the cell at `(row, col)` is stored.
    pub open spec fn index(self, row: int, col: int) -> int {
        row * self.width + col
    }

    /// The cell at `(row, col)`.
    pub open spec fn cell(self, row: int, col: int) -> Cell {
        self.cells[self.index(row, col)]
    }

    /// The cell at `(row, col)` on the torus: a row or column beyond an edge
    /// of the board comes in again at the opposite edge.
    pub open spec fn wrapped(self, row: int, col: int) -> Cell {
        self.cell(row % (self.height as int), col % (self.width as int))
    }

    /// What the position that lies `delta_row` rows below and `delta_col`
    /// columns to the right of `(row, col)` on the torus adds to the count of
    /// live neighbours. The offset `(0, 0)` is the position itself and adds
    /// nothing.
    pub open spec fn neighbor(self, row: int, col: int, delta_row: int, delta_col: int) -> int {
        if delta_row == 0 && delta_col == 0 {
            0
        } else {
            self.wrapped(row + delta_row, col + delta_col).weight()
        }
    }

    /// The live neighbours of `(row, col)` in the row that lies `delta_row`
    /// rows below it: one column to the left (which on the torus is
    /// `width - 1` columns to the right), the same column, one to the right.
    pub open spec fn band(self, row: int, col: int, delta_row: int) -> int {
        self.neighbor(row, col, delta_row, self.width - 1)
            + self.neighbor(row, col, delta_row, 0)
            + self.neighbor(row, col, delta_row, 1)
    }

    /// The number of live neighbours of `(row, col)` on the torus: the row
    /// above (which is `height - 1` rows below), the same row, the row below.
    pub open spec fn live_neighbors(self, row: int, col: int) -> int {
        self.band(row, col, self.height - 1)
            + self.band(row, col, 0)
            + self.band(row, col, 1)
    }

    /// The state, one generation on, of the cell stored at position `i`.
    pub open spec fn next_cell(self, i: int) -> Cell {
        self.cells[i].successor(
            self.live_neighbors(i / (self.width as int), i % (self.width as int)),
        )
    }

    /// The next generation: every cell judged by its neighbours in this one.
    pub open spec fn next(self) -> Grid {
        Grid {
            width: self.width,
            height: self.height,
            cells: Seq::new(self.cells.len(), |i: int| self.next_cell(i)),
        }
    }

    /// Every cell of the board is in the state `state`.
    pub open spec fn uniform(self, state: Cell) -> bool {
        forall|i: int| 0 <= i < self.cells.len() ==> self.cells[i] == state
    }

    /// A position on the board is stored inside the sequence of cells, and row
    /// and column can be had back from where it is stored.
    pub proof fn lemma_index(self, row: int, col: int)
        requires
            self.wf(),
            self.contains(row, col),
        ensures
            0 <= self.index(row, col) < self.cells.len(),
            self.index(row, col) / (self.width as int) == row,
            self.index(row, col) % (self.width as int) == col,
    {
        let w = self.width as int;
        let h = self.height as int;
        assert(row * w + w <= h * w) by (nonlinear_arith)
            requires
                0 <= row < h,
                0 <= w,
        ;
        assert(0 <= row * w) by (nonlinear_arith)
            requires
                0 <= row,
                0 <= w,
        ;
        assert(h * w == w * h) by (nonlinear_arith);
        lemma_fundamental_div_mod_converse(self.index(row, col), w, row, col);
    }

    /// Where a cell is stored gives a position on the board.
    pub proof fn lemma_position(self, i: int)
        requires
            self.wf(),
            0 <= i < self.cells.len(),
        ensures
            self.contains(i / (self.width as int), i % (self.width as int)),
            self.index(i / (self.width as int), i % (self.width as int)) == i,
    {
        let w = self.width as int;
        let h = self.height as int;
        assert(w > 0) by (nonlinear_arith)
            requires
                0 <= i < w * h,
                0 <= w,
                0 <= h,
        ;
        lemma_mod_bound(i, w);
        assert(i == (i / w) * w + i % w && 0 <= i / w < h) by (nonlinear_arith)
            requires
                0 <= i < w * h,
                0 < w,
                0 <= i % w < w,
        ;
    }

    /// Wrapping round at the edges always lands on the board.
    pub proof fn lemma_wrap(self, row: int, col: int)
        requires
            self.width > 0,
            self.height > 0,
        ensures
            self.contains(row % (self.height as int), col % (self.width as int)),
    {
        lemma_mod_bound(row, self.height as int);
        lemma_mod_bound(col, self.width as int);
    }

    /// On the next board, the cell at a position is the successor of the cell
    /// that is there now, under its live neighbours now.
    pub proof fn lemma_next_cell_at(self, row: int, col: int)
        requires
            self.wf(),
            self.contains(row, col),
        ensures
            self.next().cell(row, col) == self.cell(row, col).successor(
                self.live_neighbors(row, col),
            ),
    {
        self.lemma_index(row, col);
    }
}

} // verus!
