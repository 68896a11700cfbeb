//! Terminal draw operations: what the renderer emits and the terminal driver
//! carries out, one by one and in order.

use vstd::prelude::*;
use crate::style::Color;

verus! {

/// One instruction for the terminal driver.
#[derive(Clone, Debug, PartialEq, Eq)]
pub enum DrawOp {
    /// Switch the terminal to raw input: keys arrive one at a time, unechoed.
    EnableRawMode,
    /// Switch the terminal back to its normal, line-buffered input.
    DisableRawMode,
    /// Hide the cursor.
    HideCursor,
    /// Show the cursor.
    ShowCursor,
    /// Clear the whole screen.
    ClearScreen,
    /// Clear the line under the cursor.
    ClearLine,
    /// Move the cursor to the given column and row, both counted from zero.
    MoveTo(u16, u16),
    /// Move the cursor right by that many columns.
    MoveRight(u16),
    /// Move the cursor down that many lines, to the start of the line.
    MoveToNextLine(u16),
    /// Move the cursor up that many lines, to the start of the line.
    MoveToPreviousLine(u16),
    /// Move the cursor to the given column of its line.
    MoveToColumn(u16),
    /// Set the color of the text printed from now on.
    SetForeground(Color),
    /// Set the color behind the text printed from now on.
    SetBackground(Color),
    /// Go back to the terminal's default colors.
    ResetColor,
    /// Print the text at the cursor.
    Print(String),
}

/// The mathematical value of a [`DrawOp`]: the same instruction, with printed
/// text as a sequence of characters.
pub enum Draw {
    EnableRawMode,
    DisableRawMode,
    HideCursor,
    ShowCursor,
    ClearScreen,
    ClearLine,
    MoveTo(u16, u16),
    MoveRight(u16),
    MoveToNextLine(u16),
    MoveToPreviousLine(u16),
    MoveToColumn(u16),
    SetForeground(Color),
    SetBackground(Color),
    ResetColor,
    Print(Seq<char>),
}

impl View for DrawOp {
    type V = Draw;

    open spec fn view(&self) -> Draw {
        match *self {
            DrawOp::EnableRawMode => Draw::EnableRawMode,
            DrawOp::DisableRawMode => Draw::DisableRawMode,
            DrawOp::HideCursor => Draw::HideCursor,
            DrawOp::ShowCursor => Draw::ShowCursor,
            DrawOp::ClearScreen => Draw::ClearScreen,
            DrawOp::ClearLine => Draw::ClearLine,
            DrawOp::MoveTo(column, row) => Draw::MoveTo(column, row),
            DrawOp::MoveRight(n) => Draw::MoveRight(n),
            DrawOp::MoveToNextLine(n) => Draw::MoveToNextLine(n),
            DrawOp::MoveToPreviousLine(n) => Draw::MoveToPreviousLine(n),
            DrawOp::MoveToColumn(column) => Draw::MoveToColumn(column),
            DrawOp::SetForeground(color) => Draw::SetForeground(color),
            DrawOp::SetBackground(color) => Draw::SetBackground(color),
            DrawOp::ResetColor => Draw::ResetColor,
            DrawOp::Print(text) => Draw::Print(text@),
        }
    }
}

/// The mathematical value of a list of draw operations.
pub open spec fn draws(ops: Seq<DrawOp>) -> Seq<Draw> {
    ops.map_values(|op: DrawOp| op@)
}

/// Appends `op` to `ops`.
pub fn emit(ops: &mut Vec<DrawOp>, op: DrawOp)
    ensures
        draws(final(ops)@) == draws(old(ops)@).push(op@),
{
    ops.push(op);
    assert(draws(ops@) =~= draws(old(ops)@).push(op@));
}

/// Moves the operations of `more` to the end of `ops`.
pub fn emit_all(ops: &mut Vec<DrawOp>, more: Vec<DrawOp>)
    ensures
        draws(final(ops)@) == draws(old(ops)@) + draws(more@),
{
    let mut more = more;
    let ghost added = more@;
    ops.append(&mut more);
    assert(draws(ops@) =~= draws(old(ops)@) + draws(added));
}

/// No operations.
pub fn nothing() -> (ops: Vec<DrawOp>)
    ensures
        draws(ops@) == Seq::<Draw>::empty(),
{
    let ops: Vec<DrawOp> = Vec::new();
    assert(draws(ops@) =~= Seq::<Draw>::empty());
    ops
}

/// The mode of a terminal, as far as draw operations change it.
pub struct TerminalMode {
    /// Keys are delivered one at a time, unechoed.
    pub raw: bool,
    /// The cursor is hidden.
    pub cursor_hidden: bool,
}

impl TerminalMode {
    /// The mode that a program finds the terminal in and has to leave it in.
    pub open spec fn normal() -> TerminalMode {
        TerminalMode { raw: false, cursor_hidden: false }
    }

    /// The mode of a terminal that a session has taken over.
    pub open spec fn taken_over() -> TerminalMode {
        TerminalMode { raw: true, cursor_hidden: true }
    }

    /// The mode after `op` was carried out in this mode.
    pub open spec fn after_op(self, op: Draw) -> TerminalMode {
        match op {
            Draw::EnableRawMode => TerminalMode { raw: true, ..self },
            Draw::DisableRawMode => TerminalMode { raw: false, ..self },
            Draw::HideCursor => TerminalMode { cursor_hidden: true, ..self },
            Draw::ShowCursor => TerminalMode { cursor_hidden: false, ..self },
            _ => self,
        }
    }

    /// The mode after `ops` were carried out in order, starting in this mode.
    pub open spec fn after(self, ops: Seq<Draw>) -> TerminalMode
        decreases ops.len(),
    {
        if ops.len() == 0 {
            self
        } else {
            self.after(ops.drop_last()).after_op(ops.last())
        }
    }

    /// Carrying out `first` and then `second` is carrying out the two in a
    /// row.
    pub proof fn lemma_after_concat(self, first: Seq<Draw>, second: Seq<Draw>)
        ensures
            self.after(first + second) == self.after(first).after(second),
        decreases second.len(),
    {
        if second.len() == 0 {
            assert(first + second =~= first);
        } else {
            self.lemma_after_concat(first, second.drop_last());
            assert((first + second).drop_last() =~= first + second.drop_last());
            assert((first + second).last() == second.last());
        }
    }

    /// Operations that only paint leave the mode as it is.
    pub proof fn lemma_painting_keeps_mode(self, ops: Seq<Draw>)
        requires
            forall|i: int| 0 <= i < ops.len() ==> paints_only(#[trigger] ops[i]),
        ensures
            self.after(ops) == self,
        decreases ops.len(),
    {
        if ops.len() > 0 {
            self.lemma_painting_keeps_mode(ops.drop_last());
        }
    }
}

/// Tells whether `op` leaves the terminal's mode alone: it clears, moves the
/// cursor, sets colors or prints.
pub open spec fn paints_only(op: Draw) -> bool {
    !(op is EnableRawMode || op is DisableRawMode || op is HideCursor || op is ShowCursor)
}

} // verus!
