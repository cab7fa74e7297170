//! The cycle the game runs in: what to do in each phase, and which phase
//! comes next.

use vstd::prelude::*;
use crate::game::Game;
use crate::grid::Grid;
use crate::render::reset_commands;
use crate::terminal::Command;

verus! {

/// How long a frame stays on the screen, in seconds.
pub const FRAME_SECONDS: u64 = 1;

/// Where the game is in its cycle.
#[derive(Clone, Copy, Debug, PartialEq, Eq, Structural)]
pub enum Phase {
    /// The terminal is about to be taken over.
    Preparing,
    /// The current generation is about to be drawn.
    Rendering,
    /// The board is about to advance by one generation.
    Advancing,
    /// The frame is about to stay on the screen for a while.
    Sleeping,
    /// The terminal is about to be given back.
    Restoring,
}

/// What has to be done outside the game before its next phase is run.
#[derive(Debug)]
pub enum Action {
    /// Carry these commands out on the terminal, in this order.
    Send(Vec<Command>),
    /// Nothing.
    Proceed,
    /// Suspend the thread for this many seconds.
    Sleep { seconds: u64 },
}

/// An action as a mathematical value.
pub enum Demand {
    Send(Seq<Command>),
    Proceed,
    Sleep { seconds: u64 },
}

impl View for Action {
    type V = Demand;

    open spec fn view(&self) -> Demand {
        match *self {
            Action::Send(commands) => Demand::Send(commands@),
            Action::Proceed => Demand::Proceed,
            Action::Sleep { seconds } => Demand::Sleep { seconds },
        }
    }
}

impl Phase {
    /// The phase that follows this one. The cycle has no end.
    pub open spec fn successor(self) -> Phase {
        match self {
            Phase::Preparing => Phase::Rendering,
            Phase::Rendering => Phase::Advancing,
            Phase::Advancing => Phase::Sleeping,
            Phase::Sleeping => Phase::Restoring,
            Phase::Restoring => Phase::Preparing,
        }
    }

    /// What running this phase asks for, on the board `grid` and with a
    /// terminal that had `original_size` columns and rows before the game.
    pub open spec fn demand(self, grid: Grid, original_size: (u16, u16)) -> Demand {
        match self {
            Phase::Preparing => Demand::Send(grid.prepare_commands()),
            Phase::Rendering => Demand::Send(grid.frame()),
            Phase::Advancing => Demand::Proceed,
            Phase::Sleeping => Demand::Sleep { seconds: FRAME_SECONDS },
            Phase::Restoring => Demand::Send(reset_commands(original_size)),
        }
    }

    /// The board that running this phase on the board `grid` leaves: the next
    /// generation when advancing, the same board in every other phase.
    pub open spec fn board_after(self, grid: Grid) -> Grid {
        if self is Advancing {
            grid.next()
        } else {
            grid
        }
    }

    /// The phase that follows this one.
    pub fn next(self) -> (next: Phase)
        ensures
            next == self.successor(),
    {
        match self {
            Phase::Preparing => Phase::Rendering,
            Phase::Rendering => Phase::Advancing,
            Phase::Advancing => Phase::Sleeping,
            Phase::Sleeping => Phase::Restoring,
            Phase::Restoring => Phase::Preparing,
        }
    }

    /// The cycle is five phases long: the fifth successor of a phase is the
    /// phase itself, and none before it is.
    pub proof fn lemma_cycle(self)
        ensures
            self.successor() != self,
            self.successor().successor() != self,
            self.successor().successor().successor() != self,
            self.successor().successor().successor().successor() != self,
            self.successor().successor().successor().successor().successor() == self,
    {
    }

    /// Wherever the cycle is entered, five phases on the board has advanced by
    /// exactly one generation.
    pub proof fn lemma_cycle_advances_once(self, grid: Grid)
        ensures
            ({
                let second = self.successor();
                let third = second.successor();
                let fourth = third.successor();
                let fifth = fourth.successor();
                fifth.board_after(
                    fourth.board_after(
                        third.board_after(second.board_after(self.board_after(grid))),
                    ),
                )
            }) == grid.next(),
    {
    }
}

impl Game {
    /// Runs the phase `phase` of the cycle, and says what is to be done
    /// outside before the next phase is run, and which phase that is.
    ///
    /// Preparing, rendering and restoring leave the board as it is and hand
    /// out the commands for the terminal. Advancing moves the board on by one
    /// generation and asks for nothing. Sleeping leaves the board as it is and
    /// asks for the time that the frame stays on the screen.
    pub fn run(&mut self, phase: Phase) -> (turn: (Action, Phase))
        requires
            phase is Preparing ==> old(self)@.fits_terminal(),
        ensures
            turn.0@ == phase.demand(old(self)@, old(self).original_size()),
            turn.1 == phase.successor(),
            final(self)@ == phase.board_after(old(self)@),
            final(self).original_size() == old(self).original_size(),
    {
        let action = match phase {
            Phase::Preparing => Action::Send(self.prepare_ui()),
            Phase::Rendering => Action::Send(self.render()),
            Phase::Advancing => {
                self.tick();
                Action::Proceed
            },
            Phase::Sleeping => Action::Sleep { seconds: FRAME_SECONDS },
            Phase::Restoring => Action::Send(self.reset_ui()),
        };
        (action, phase.next())
    }
}

} // verus!
