//! What the game sends to the terminal: the commands that take the terminal
//! over, those that draw one frame, and those that give the terminal back.

use vstd::prelude::*;
use crate::cell::Cell;
use crate::game::Game;
use crate::grid::Grid;
use crate::terminal::Color;
use crate::terminal::Command;
use crate::terminal::execute;
use crate::terminal::flushes;
use crate::terminal::glyph_writes;
use crate::terminal::lemma_counts_add;
use crate::terminal::lemma_counts_single;
use crate::terminal::queue;

verus! {

/// How many columns and rows the terminal is given beyond the board's own.
pub const MARGIN: u16 = 3;

/// The colour a cell is drawn in: the accent colour if alive, the colour of
/// the background if dead.
pub open spec fn glyph_color(cell: Cell) -> Color {
    if cell is Alive {
        Color::Magenta
    } else {
        Color::Black
    }
}

impl Grid {
    /// The terminal can be given the board's size and the margin.
    pub open spec fn fits_terminal(self) -> bool {
        self.width + MARGIN <= u16::MAX && self.height + MARGIN <= u16::MAX
    }

    /// Taking the terminal over: raw mode on; then, each sent on at once, the
    /// terminal resized to the board and the margin, the screen cleared, the
    /// background set to black, the cursor hidden.
    pub open spec fn prepare_commands(self) -> Seq<Command> {
        seq![
            Command::EnableRawMode,
            Command::SetSize {
                columns: (self.width + MARGIN) as u16,
                rows: (self.height + MARGIN) as u16,
            },
            Command::Flush,
            Command::ClearAll,
            Command::Flush,
            Command::SetBackgroundColor { color: Color::Black },
            Command::Flush,
            Command::Hide,
            Command::Flush,
        ]
    }

    /// The `k`th command of those that draw the cells. Each cell takes two:
    /// the cursor is moved, then the glyph is printed. The cursor's column is
    /// the cell's row on the board, and the cursor's row the cell's column.
    pub open spec fn cell_command(self, k: int) -> Command {
        let i = k / 2;
        if k % 2 == 0 {
            Command::MoveTo {
                column: (i / (self.width as int)) as u16,
                row: (i % (self.width as int)) as u16,
            }
        } else {
            Command::PrintBlock { color: glyph_color(self.cells[i]) }
        }
    }

    /// The commands that draw the cells, row after row.
    pub open spec fn cell_commands(self) -> Seq<Command> {
        Seq::new(2 * self.cells.len(), |k: int| self.cell_command(k))
    }

    /// One frame: the background set to black, every cell drawn, and one
    /// flush at the end.
    pub open spec fn frame(self) -> Seq<Command> {
        seq![Command::SetBackgroundColor { color: Color::Black }] + self.cell_commands()
            + seq![Command::Flush]
    }
}

/// Giving the terminal back: each sent on at once, the terminal resized to
/// `home`, its columns and rows before the game, the screen cleared, the
/// cursor shown, the colours reset; then raw mode off.
pub open spec fn reset_commands(home: (u16, u16)) -> Seq<Command> {
    seq![
        Command::SetSize { columns: home.0, rows: home.1 },
        Command::Flush,
        Command::ClearAll,
        Command::Flush,
        Command::Show,
        Command::Flush,
        Command::ResetColor,
        Command::Flush,
        Command::DisableRawMode,
    ]
}

/// The commands that draw the first `n` cells print `n` glyphs and flush
/// nothing.
pub proof fn lemma_cell_commands_counts(grid: Grid, n: int)
    requires
        0 <= n <= grid.cells.len(),
    ensures
        glyph_writes(grid.cell_commands().take(2 * n)) == n,
        flushes(grid.cell_commands().take(2 * n)) == 0,
    decreases n,
{
    let all = grid.cell_commands();
    if n > 0 {
        let k = 2 * (n - 1);
        let moved = seq![all[k]];
        let printed = seq![all[k + 1]];
        lemma_cell_commands_counts(grid, n - 1);
        assert(all.take(2 * n) =~= all.take(k) + (moved + printed));
        lemma_counts_add(all.take(k), moved + printed);
        lemma_counts_add(moved, printed);
        lemma_counts_single(all[k]);
        lemma_counts_single(all[k + 1]);
    }
}

/// A frame is one batch: it prints exactly one glyph for each cell of the
/// board, and flushes exactly once, when everything else has been written.
pub proof fn lemma_frame_is_batched(grid: Grid)
    requires
        grid.wf(),
    ensures
        glyph_writes(grid.frame()) == grid.width * grid.height,
        flushes(grid.frame()) == 1,
        grid.frame().last() == Command::Flush,
        flushes(grid.frame().drop_last()) == 0,
{
    let background = seq![Command::SetBackgroundColor { color: Color::Black }];
    let cells = grid.cell_commands();
    let flush = seq![Command::Flush];
    lemma_cell_commands_counts(grid, grid.cells.len() as int);
    assert(cells.take(2 * (grid.cells.len() as int)) =~= cells);
    lemma_counts_single(Command::SetBackgroundColor { color: Color::Black });
    lemma_counts_single(Command::Flush);
    lemma_counts_add(background, cells);
    lemma_counts_add(background + cells, flush);
    assert(grid.frame().drop_last() =~= background + cells);
}

impl Game {
    /// Whether the terminal can be given the board's size and the margin.
    pub fn fits_terminal(&self) -> (fits: bool)
        ensures
            fits == self@.fits_terminal(),
    {
        self.width() <= u16::MAX - MARGIN && self.height() <= u16::MAX - MARGIN
    }

    /// The commands that take the terminal over for one frame.
    pub fn prepare_ui(&self) -> (commands: Vec<Command>)
        requires
            self@.fits_terminal(),
        ensures
            commands@ == self@.prepare_commands(),
    {
        let mut out: Vec<Command> = Vec::new();
        out.push(Command::EnableRawMode);
        execute(
            &mut out,
            Command::SetSize { columns: self.width() + MARGIN, rows: self.height() + MARGIN },
        );
        execute(&mut out, Command::ClearAll);
        execute(&mut out, Command::SetBackgroundColor { color: Color::Black });
        execute(&mut out, Command::Hide);
        assert(out@ =~= self@.prepare_commands());
        out
    }

    /// The commands that draw the current generation: one frame, which
    /// prints one glyph for each cell and flushes once, at the end.
    pub fn render(&self) -> (commands: Vec<Command>)
        ensures
            commands@ == self@.frame(),
            glyph_writes(commands@) == self@.width * self@.height,
            flushes(commands@) == 1,
    {
        let mut out: Vec<Command> = Vec::new();
        self.draw_background(&mut out);
        self.draw_cells(&mut out);
        queue(&mut out, Command::Flush);
        proof {
            assert(out@ =~= self@.frame());
            lemma_frame_is_batched(self@);
        }
        out
    }

    /// Adds the command that sets the background to black.
    pub fn draw_background(&self, out: &mut Vec<Command>)
        ensures
            final(out)@ == old(out)@.push(Command::SetBackgroundColor { color: Color::Black }),
    {
        queue(out, Command::SetBackgroundColor { color: Color::Black });
    }

    /// Adds, for every cell, row after row, the command that moves the cursor
    /// to it and the command that prints its glyph.
    pub fn draw_cells(&self, out: &mut Vec<Command>)
        ensures
            final(out)@ == old(out)@ + self@.cell_commands(),
            self@.wf(),
    {
        let cells = self.cells();
        let height = self.height();
        let width = self.width();
        let ghost grid = self@;
        let ghost all = grid.cell_commands();
        for row in 0..height
            invariant
                grid == self@,
                grid.wf(),
                all == grid.cell_commands(),
                height == grid.height,
                width == grid.width,
                cells@ == grid.cells,
                out@ =~= old(out)@ + all.take(2 * (row * width)),
        {
            for col in 0..width
                invariant
                    grid == self@,
                    grid.wf(),
                    all == grid.cell_commands(),
                    height == grid.height,
                    width == grid.width,
                    cells@ == grid.cells,
                    row < height,
                    out@ =~= old(out)@ + all.take(2 * (row * width + col)),
            {
                let idx = self.get_index(row, col);
                let color = match cells[idx] {
                    Cell::Alive => Color::Magenta,
                    Cell::Dead => Color::Black,
                };
                proof {
                    grid.lemma_index(row as int, col as int);
                    assert(all.take(2 * idx + 2) =~= all.take(2 * idx).push(all[2 * idx]).push(
                        all[2 * idx + 1],
                    ));
                }
                queue(out, Command::MoveTo { column: row, row: col });
                queue(out, Command::PrintBlock { color });
            }
            assert((row + 1) * width == row * width + width) by (nonlinear_arith);
        }
        proof {
            assert(height * width == width * height) by (nonlinear_arith);
            assert(all.take(2 * (height * width)) =~= all);
        }
    }

    /// The commands that give the terminal back after a frame.
    pub fn reset_ui(&self) -> (commands: Vec<Command>)
        ensures
            commands@ == reset_commands(self.original_size()),
    {
        let (cols, rows) = self.original_terminal_size();
        let mut out: Vec<Command> = Vec::new();
        execute(&mut out, Command::SetSize { columns: cols, rows });
        execute(&mut out, Command::ClearAll);
        execute(&mut out, Command::Show);
        execute(&mut out, Command::ResetColor);
        out.push(Command::DisableRawMode);
        assert(out@ =~= reset_commands(self.original_size()));
        out
    }
}

} // verus!
