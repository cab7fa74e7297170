//! A single cell and the rule by which it lives or dies.

use vstd::prelude::*;

verus! {

/// The state of one position on the board.
#[derive(Clone, Copy, Debug, PartialEq, Eq, Structural)]
pub enum Cell {
    Dead,
    Alive,
}

impl Cell {
    /// What the cell adds to a count of live cells: 1 if alive, 0 if dead.
    pub open spec fn weight(self) -> int {
        if self is Alive {
            1
        } else {
            0
        }
    }

    /// The cell's state one generation on, given how many of its neighbours
    /// are alive now: a cell is alive then exactly if it has three live
    /// neighbours, or is alive and has two.
    pub open spec fn successor(self, live_neighbors: int) -> Cell {
        if live_neighbors == 3 || (self is Alive && live_neighbors == 2) {
            Cell::Alive
        } else {
            Cell::Dead
        }
    }

    /// The cell for one fair coin toss: alive on heads.
    pub fn from_coin(heads: bool) -> (cell: Cell)
        ensures
            cell is Alive <==> heads,
    {
        if heads {
            Cell::Alive
        } else {
            Cell::Dead
        }
    }

    /// Whether the cell is alive.
    pub fn is_alive(self) -> (alive: bool)
        ensures
            alive <==> self is Alive,
    {
        match self {
            Cell::Alive => true,
            Cell::Dead => false,
        }
    }

    /// The cell as a number, for counting: 1 if alive, 0 if dead.
    pub fn count(self) -> (n: u8)
        ensures
            n == self.weight(),
    {
        match self {
            Cell::Alive => 1,
            Cell::Dead => 0,
        }
    }

    /// Applies the transition rule, which is tried in this order:
    /// a live cell with fewer than two live neighbours dies; a live cell with
    /// two or three lives on; a live cell with more than three dies; a dead
    /// cell with exactly three comes alive; any other cell stays as it is.
    pub fn next_state(self, live_neighbors: u8) -> (next: Cell)
        ensures
            next == self.successor(live_neighbors as int),
    {
        match self {
            Cell::Alive => {
                if live_neighbors < 2 {
                    Cell::Dead
                } else if live_neighbors == 2 || live_neighbors == 3 {
                    Cell::Alive
                } else {
                    Cell::Dead
                }
            },
            Cell::Dead => {
                if live_neighbors == 3 {
                    Cell::Alive
                } else {
                    self
                }
            },
        }
    }
}

} // verus!
