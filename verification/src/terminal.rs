//! What the game asks of a terminal, as plain values: the commands, and how
//! many of a kind a sequence of them holds.

use vstd::prelude::*;

verus! {

/// The colours the game draws in.
#[derive(Clone, Copy, Debug, PartialEq, Eq, Structural)]
pub enum Color {
    Black,
    Magenta,
}

/// One request to the terminal. All but `Flush` and the two for raw mode are
/// written to the output stream and reach the terminal when it is flushed.
#[derive(Clone, Copy, Debug, PartialEq, Eq, Structural)]
pub enum Command {
    /// Stop the terminal from buffering lines and echoing keys.
    EnableRawMode,
    /// Give line buffering and echo back.
    DisableRawMode,
    /// Resize the terminal to this many columns and rows.
    SetSize { columns: u16, rows: u16 },
    /// Clear the whole screen.
    ClearAll,
    /// Draw what follows on this background.
    SetBackgroundColor { color: Color },
    /// Go back to the terminal's own colours.
    ResetColor,
    /// Hide the cursor.
    Hide,
    /// Show the cursor.
    Show,
    /// Put the cursor in this column and row, counted from 0.
    MoveTo { column: u16, row: u16 },
    /// Print one full block in this colour where the cursor is.
    PrintBlock { color: Color },
    /// Send everything written so far to the terminal.
    Flush,
}

/// The number of glyphs that `commands` print.
pub open spec fn glyph_writes(commands: Seq<Command>) -> nat
    decreases commands.len(),
{
    if commands.len() == 0 {
        0
    } else {
        glyph_writes(commands.drop_last()) + if commands.last() is PrintBlock {
            1nat
        } else {
            0nat
        }
    }
}

/// The number of times that `commands` flush the output stream.
pub open spec fn flushes(commands: Seq<Command>) -> nat
    decreases commands.len(),
{
    if commands.len() == 0 {
        0
    } else {
        flushes(commands.drop_last()) + if commands.last() is Flush {
            1nat
        } else {
            0nat
        }
    }
}

/// The counts of two sequences add up when one follows the other.
pub proof fn lemma_counts_add(first: Seq<Command>, second: Seq<Command>)
    ensures
        glyph_writes(first + second) == glyph_writes(first) + glyph_writes(second),
        flushes(first + second) == flushes(first) + flushes(second),
    decreases second.len(),
{
    if second.len() == 0 {
        assert(first + second =~= first);
    } else {
        lemma_counts_add(first, second.drop_last());
        assert((first + second).drop_last() =~= first + second.drop_last());
    }
}

/// A single command counts one for its kind and nothing for the other.
pub proof fn lemma_counts_single(command: Command)
    ensures
        glyph_writes(seq![command]) == if command is PrintBlock {
            1nat
        } else {
            0nat
        },
        flushes(seq![command]) == if command is Flush {
            1nat
        } else {
            0nat
        },
{
    let none = Seq::<Command>::empty();
    assert(seq![command].drop_last() =~= none);
    assert(glyph_writes(none) == 0 && flushes(none) == 0);
}

/// Writes `command` to the stream without sending it on.
pub fn queue(out: &mut Vec<Command>, command: Command)
    ensures
        final(out)@ == old(out)@.push(command),
{
    out.push(command);
}

/// Writes `command` to the stream and sends it on at once.
pub fn execute(out: &mut Vec<Command>, command: Command)
    ensures
        final(out)@ == old(out)@.push(command).push(Command::Flush),
{
    queue(out, command);
    queue(out, Command::Flush);
}

} // verus!
