//! The game: a board of cells on a torus that advances one generation at a
//! time.

use vstd::prelude::*;
use vstd::arithmetic::div_mod::lemma_mod_bound;
use crate::cell::Cell;
use crate::grid::Grid;
use crate::random::thread_rng;
use crate::random::toss;

verus! {

/// The board of the current generation, with the size that the terminal had
/// before the game took it over.
pub struct Game {
    original_terminal_size: (u16, u16),
    height: u16,
    width: u16,
    list_cells: Vec<Cell>,
}

impl View for Game {
    type V = Grid;

    closed spec fn view(&self) -> Grid {
        Grid {
            width: self.width as nat,
            height: self.height as nat,
            cells: self.list_cells@,
        }
    }
}

/// The neighbours counted in one row of the neighbourhood once `done` of its
/// three columns have been looked at.
spec fn band_prefix(grid: Grid, row: int, col: int, delta_row: int, done: int) -> int {
    (if done > 0 {
        grid.neighbor(row, col, delta_row, grid.width - 1)
    } else {
        0
    }) + (if done > 1 {
        grid.neighbor(row, col, delta_row, 0)
    } else {
        0
    }) + (if done > 2 {
        grid.neighbor(row, col, delta_row, 1)
    } else {
        0
    })
}

/// The neighbours counted once `done` of the three rows of the neighbourhood
/// have been looked at.
spec fn bands_prefix(grid: Grid, row: int, col: int, done: int) -> int {
    (if done > 0 {
        grid.band(row, col, grid.height - 1)
    } else {
        0
    }) + (if done > 1 {
        grid.band(row, col, 0)
    } else {
        0
    }) + (if done > 2 {
        grid.band(row, col, 1)
    } else {
        0
    })
}

impl Game {
    /// The board holds one cell for each position.
    #[verifier::type_invariant]
    spec fn inv(&self) -> bool {
        self.list_cells@.len() == self.width * self.height
    }

    /// The size, in columns and rows, that the terminal had before the game.
    pub closed spec fn original_size(&self) -> (u16, u16) {
        self.original_terminal_size
    }

    /// A board of `width` columns and `height` rows on which every cell is
    /// alive or dead by the toss of a fair coin. `original_terminal_size` is
    /// what the terminal measured, in columns and rows, before the game.
    pub fn new(original_terminal_size: (u16, u16), width: u16, height: u16) -> (game: Game)
        ensures
            game@.width == width,
            game@.height == height,
            game@.wf(),
            game.original_size() == original_terminal_size,
    {
        assert(width * height <= usize::MAX) by (nonlinear_arith)
            requires
                width <= 0xffff,
                height <= 0xffff,
                usize::MAX >= 0xffff_ffff,
        ;
        let total: usize = (width as usize) * (height as usize);
        let mut rng = thread_rng();
        let mut cells: Vec<Cell> = Vec::new();
        let mut i: usize = 0;
        while i < total
            invariant
                i <= total,
                cells@.len() == i,
            decreases total - i,
        {
            cells.push(Cell::from_coin(toss(&mut rng)));
            i += 1;
        }
        Game { original_terminal_size, height, width, list_cells: cells }
    }

    /// The board of `width` columns and `height` rows that holds `cells`, row
    /// after row, if there is one cell for each position; otherwise nothing.
    pub fn with_cells(
        original_terminal_size: (u16, u16),
        width: u16,
        height: u16,
        cells: Vec<Cell>,
    ) -> (made: Option<Game>)
        ensures
            made is Some <==> cells@.len() == width * height,
            made matches Some(game) ==> {
                &&& game@ == (Grid { width: width as nat, height: height as nat, cells: cells@ })
                &&& game.original_size() == original_terminal_size
            },
    {
        assert(width * height <= usize::MAX) by (nonlinear_arith)
            requires
                width <= 0xffff,
                height <= 0xffff,
                usize::MAX >= 0xffff_ffff,
        ;
        if cells.len() == (width as usize) * (height as usize) {
            Some(Game { original_terminal_size, height, width, list_cells: cells })
        } else {
            None
        }
    }

    /// The number of columns.
    pub fn width(&self) -> (width: u16)
        ensures
            width == self@.width,
    {
        self.width
    }

    /// The number of rows.
    pub fn height(&self) -> (height: u16)
        ensures
            height == self@.height,
    {
        self.height
    }

    /// The cells of the current generation, row after row.
    pub fn cells(&self) -> (cells: &Vec<Cell>)
        ensures
            cells@ == self@.cells,
            self@.wf(),
    {
        proof {
            use_type_invariant(self);
        }
        &self.list_cells
    }

    /// The size, in columns and rows, that the terminal had before the game.
    pub fn original_terminal_size(&self) -> (size: (u16, u16))
        ensures
            size == self.original_size(),
    {
        self.original_terminal_size
    }

    /// Where the cell at `(row, column)` is stored: `row * width + column`.
    pub fn get_index(&self, row: u16, column: u16) -> (index: usize)
        requires
            self@.contains(row as int, column as int),
        ensures
            index == self@.index(row as int, column as int),
            index < self@.cells.len(),
    {
        proof {
            use_type_invariant(self);
            self@.lemma_index(row as int, column as int);
            assert(row * self.width <= 0xffff * 0xffff) by (nonlinear_arith)
                requires
                    row <= 0xffff,
                    self.width <= 0xffff,
            ;
        }
        (row as usize) * (self.width as usize) + (column as usize)
    }

    /// The number of live cells among the eight neighbours of `(row, column)`
    /// on the torus. The board must have a cell.
    pub fn live_neighbor_count(&self, row: u16, column: u16) -> (count: u8)
        requires
            self@.width > 0,
            self@.height > 0,
        ensures
            count == self@.live_neighbors(row as int, column as int),
            count <= 8,
    {
        proof {
            use_type_invariant(self);
        }
        let height = self.height as usize;
        let width = self.width as usize;
        let row_deltas: [usize; 3] = [height - 1, 0, 1];
        let col_deltas: [usize; 3] = [width - 1, 0, 1];
        let mut count: u8 = 0;
        for i in 0..3usize
            invariant
                height == self.height,
                width == self.width,
                height > 0,
                width > 0,
                row_deltas@ == seq![(height - 1) as usize, 0usize, 1usize],
                col_deltas@ == seq![(width - 1) as usize, 0usize, 1usize],
                count == bands_prefix(self@, row as int, column as int, i as int),
                count <= 3 * i,
        {
            let delta_row = row_deltas[i];
            let ghost before = count;
            for j in 0..3usize
                invariant
                    height == self.height,
                    width == self.width,
                    height > 0,
                    width > 0,
                    i < 3,
                    delta_row == row_deltas@[i as int],
                    row_deltas@ == seq![(height - 1) as usize, 0usize, 1usize],
                    col_deltas@ == seq![(width - 1) as usize, 0usize, 1usize],
                    before <= 3 * i,
                    count == before + band_prefix(
                        self@,
                        row as int,
                        column as int,
                        delta_row as int,
                        j as int,
                    ),
                    count <= before + j,
            {
                let delta_col = col_deltas[j];
                if !(delta_row == 0 && delta_col == 0) {
                    proof {
                        lemma_mod_bound(row + delta_row, height as int);
                        lemma_mod_bound(column + delta_col, width as int);
                    }
                    let neighbor_row = ((row as usize + delta_row) % height) as u16;
                    let neighbor_col = ((column as usize + delta_col) % width) as u16;
                    let cell_idx = self.get_index(neighbor_row, neighbor_col);
                    count += self.list_cells[cell_idx].count();
                }
            }
        }
        count
    }

    /// Advances the board by one generation. Every cell is judged by the
    /// neighbours it has before the call.
    pub fn tick(&mut self)
        ensures
            final(self)@ == old(self)@.next(),
            final(self)@.width == old(self)@.width,
            final(self)@.height == old(self)@.height,
            final(self)@.cells.len() == old(self)@.cells.len(),
            final(self)@.wf(),
            final(self).original_size() == old(self).original_size(),
    {
        proof {
            use_type_invariant(&*self);
        }
        let mut next: Vec<Cell> = Vec::new();
        for row in 0..self.height
            invariant
                *self == *old(self),
                self@.wf(),
                next@.len() == row * self.width,
                forall|i: int| 0 <= i < next@.len() ==> next@[i] == self@.next_cell(i),
        {
            for col in 0..self.width
                invariant
                    *self == *old(self),
                    self@.wf(),
                    row < self.height,
                    next@.len() == row * self.width + col,
                    forall|i: int| 0 <= i < next@.len() ==> next@[i] == self@.next_cell(i),
            {
                let idx = self.get_index(row, col);
                let cell = self.list_cells[idx];
                let live_neighbor = self.live_neighbor_count(row, col);
                proof {
                    self@.lemma_index(row as int, col as int);
                }
                next.push(cell.next_state(live_neighbor));
            }
            assert((row + 1) * self.width == row * self.width + self.width) by (nonlinear_arith);
        }
        assert(next@ =~= self@.next().cells) by {
            assert(self.height * self.width == self.width * self.height) by (nonlinear_arith);
        }
        self.list_cells = next;
    }
}

} // verus!
