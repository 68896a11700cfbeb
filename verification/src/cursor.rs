//! Where draw operations take the cursor, and which screen rows they write
//! on.

use vstd::prelude::*;
use crate::draw::Draw;
use crate::text::line_breaks;

verus! {

/// The cursor's row and the rows written on so far. Rows are counted from
/// zero at the top of the screen.
pub struct Pen {
    /// The row that the cursor is on.
    pub row: int,
    /// The rows that were cleared or printed on.
    pub touched: Set<int>,
}

impl Pen {
    /// A cursor on `row` that has written nothing yet.
    pub open spec fn at(row: int) -> Pen {
        Pen { row, touched: Set::empty() }
    }

    /// The pen after `op`. Printing writes on the cursor's row and, for each
    /// line break in the text, on the next row down; clearing a line writes
    /// on the cursor's row; clearing the screen writes on every row.
    pub open spec fn after_op(self, op: Draw) -> Pen {
        match op {
            Draw::MoveTo(_, row) => Pen { row: row as int, ..self },
            Draw::MoveToNextLine(lines) => Pen { row: self.row + lines, ..self },
            Draw::MoveToPreviousLine(lines) => Pen { row: self.row - lines, ..self },
            Draw::ClearLine => Pen { touched: self.touched.insert(self.row), ..self },
            Draw::ClearScreen => Pen { touched: Set::full(), ..self },
            Draw::Print(text) => Pen {
                row: self.row + line_breaks(text),
                touched: self.touched.union(
                    Set::new(|row: int| self.row <= row <= self.row + line_breaks(text)),
                ),
            },
            _ => self,
        }
    }

    /// The pen after `ops`, carried out in order.
    pub open spec fn after(self, ops: Seq<Draw>) -> Pen
        decreases ops.len(),
    {
        if ops.len() == 0 {
            self
        } else {
            self.after(ops.drop_last()).after_op(ops.last())
        }
    }

    /// Carrying out `first` and then `second` is carrying out the two in a
    /// row.
    pub proof fn lemma_after_concat(self, first: Seq<Draw>, second: Seq<Draw>)
        ensures
            self.after(first + second) == self.after(first).after(second),
        decreases second.len(),
    {
        if second.len() == 0 {
            assert(first + second =~= first);
        } else {
            self.lemma_after_concat(first, second.drop_last());
            assert((first + second).drop_last() =~= first + second.drop_last());
            assert((first + second).last() == second.last());
        }
    }

    /// The pen after one operation.
    pub proof fn lemma_after_one(self, op: Draw)
        ensures
            self.after(seq![op]) == self.after_op(op),
    {
        assert(seq![op].drop_last() =~= Seq::<Draw>::empty());
        reveal_with_fuel(Pen::after, 2);
    }

    /// The pen after `ops` and one more operation.
    pub proof fn lemma_after_push(self, ops: Seq<Draw>, op: Draw)
        ensures
            self.after(ops.push(op)) == self.after(ops).after_op(op),
    {
        assert(ops.push(op).drop_last() =~= ops);
    }

    /// The pen after two operations.
    pub proof fn lemma_after_two(self, first: Draw, second: Draw)
        ensures
            self.after(seq![first, second]) == self.after_op(first).after_op(second),
    {
        assert(seq![first, second] =~= seq![first].push(second));
        self.lemma_after_push(seq![first], second);
        self.lemma_after_one(first);
    }

    /// The pen after three operations.
    pub proof fn lemma_after_three(self, first: Draw, second: Draw, third: Draw)
        ensures
            self.after(seq![first, second, third]) == self.after_op(first).after_op(
                second,
            ).after_op(third),
    {
        assert(seq![first, second, third] =~= seq![first, second].push(third));
        self.lemma_after_push(seq![first, second], third);
        self.lemma_after_two(first, second);
    }

    /// Printing a text without a line break writes on the cursor's row and
    /// leaves the cursor on it.
    pub proof fn lemma_print_on_one_line(self, text: Seq<char>)
        requires
            line_breaks(text) == 0,
        ensures
            self.after_op(Draw::Print(text)) == (Pen {
                row: self.row,
                touched: self.touched.insert(self.row),
            }),
    {
        assert(self.touched.union(Set::new(|row: int| self.row <= row <= self.row + 0))
            =~= self.touched.insert(self.row));
    }

    /// Where the cursor ends up depends on where it started, not on what
    /// was written before.
    pub proof fn lemma_row_ignores_touched(self, other: Pen, ops: Seq<Draw>)
        requires
            self.row == other.row,
        ensures
            self.after(ops).row == other.after(ops).row,
        decreases ops.len(),
    {
        if ops.len() > 0 {
            self.lemma_row_ignores_touched(other, ops.drop_last());
        }
    }
}

} // verus!
