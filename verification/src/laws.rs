//! What holds of every session of a single-select menu.

use vstd::prelude::*;
use crate::cursor::Pen;
use crate::draw::Draw;
use crate::input::{Command, Direction, KeyPress, Phase};
use crate::layout::lemma_no_error_anywhere;
use crate::model::MenuView;
use crate::session::{lemma_run_one_more, run, SessionModel};
use crate::terminal::Size;
use crate::text::{byte_len, lemma_occurrences, line_breaks};

verus! {

impl MenuView {
    /// Tells whether the highlight is on a row of the list.
    pub open spec fn highlight_in_range(self) -> bool {
        self.selected_index < self.options.len()
    }

    /// Whatever keys are pressed, the highlight stays on a row of the list,
    /// and nothing of the menu changes but the highlight.
    pub proof fn lemma_highlight_stays_in_range(self, keys: Seq<KeyPress>)
        requires
            self.highlight_in_range(),
        ensures
            run(self, keys).model.highlight_in_range(),
            run(self, keys).model == (MenuView {
                selected_index: run(self, keys).model.selected_index,
                ..self
            }),
        decreases keys.len(),
    {
        if keys.len() > 0 {
            let command = keys[0].command_spec();
            if !command.ends_session() {
                self.after(command).lemma_highlight_stays_in_range(keys.drop_first());
            }
        }
    }

    /// Moving up from the first row changes nothing and draws nothing.
    pub proof fn lemma_up_at_first_row(self)
        requires
            self.selected_index == 0,
        ensures
            self.after(Command::MoveUp) == self,
            self.ops_for(Command::MoveUp) == Seq::<Draw>::empty(),
    {
    }

    /// Moving down from the last row changes nothing and draws nothing.
    pub proof fn lemma_down_at_last_row(self)
        requires
            self.selected_index + 1 == self.options.len(),
        ensures
            self.after(Command::MoveDown) == self,
            self.ops_for(Command::MoveDown) == Seq::<Draw>::empty(),
    {
    }

    /// A move to another row takes the highlight exactly one row further.
    pub proof fn lemma_move_changes_one_row(self, direction: Direction)
        requires
            self.highlight_in_range(),
            self.can_move(direction),
        ensures
            self.moved(direction).highlight_in_range(),
            direction == Direction::Up ==> self.moved(direction).selected_index + 1
                == self.selected_index,
            direction == Direction::Down ==> self.moved(direction).selected_index
                == self.selected_index + 1,
    {
    }

    /// Confirming leaves the session with the row that the highlight is on
    /// at that moment.
    pub proof fn lemma_confirm_returns_highlight(self, keys: Seq<KeyPress>, key: KeyPress)
        requires
            run(self, keys).phase == Phase::Running,
            key.command_spec() == Command::Confirm,
        ensures
            run(self, keys.push(key)).phase == Phase::Done,
            run(self, keys.push(key)).result == Some(run(self, keys).model.selected_index as usize),
    {
        lemma_run_one_more(self, keys, key);
    }

    /// Cancelling leaves the session without a selection, wherever the
    /// highlight is.
    pub proof fn lemma_cancel_returns_nothing(self, keys: Seq<KeyPress>, key: KeyPress)
        requires
            run(self, keys).phase == Phase::Running,
            key.command_spec() == Command::Cancel,
        ensures
            run(self, keys.push(key)).phase == Phase::Done,
            run(self, keys.push(key)).result is None,
    {
        lemma_run_one_more(self, keys, key);
    }

    /// Tells whether every row takes one line of the screen: neither the
    /// selector nor an option holds a line break.
    pub open spec fn rows_on_one_line(self) -> bool {
        &&& line_breaks(self.selector) == 0
        &&& forall|index: int|
            0 <= index < self.options.len() ==> line_breaks(#[trigger] self.options[index]) == 0
    }

    /// A menu that is accepted for a terminal has each option on one line,
    /// and with a selector free of line breaks it is laid out row by row.
    pub proof fn lemma_accepted_is_laid_out(self, size: Option<Size>)
        requires
            self.verdict(size) is None,
            line_breaks(self.selector) == 0,
        ensures
            self.laid_out(),
    {
        self.lemma_accepted_is_well_formed(size);
        assert forall|index: int| 0 <= index < self.options.len() implies line_breaks(
            #[trigger] self.options[index],
        ) == 0 by {
            lemma_no_error_anywhere(
                self.options,
                byte_len(self.selector),
                size->0.cols,
                self.options.len(),
                index as nat,
            );
            lemma_occurrences(self.options[index], '\n');
        }
    }

    /// A row drawn without highlight is written on the cursor's row alone.
    pub proof fn lemma_plain_row_pen(self, pen: Pen, text: Seq<char>)
        requires
            line_breaks(text) == 0,
        ensures
            pen.after(self.plain_row(text)) == (Pen {
                row: pen.row,
                touched: pen.touched.insert(pen.row),
            }),
    {
        pen.lemma_after_two(Draw::MoveRight(self.indent()), Draw::Print(text));
        pen.lemma_print_on_one_line(text);
    }

    /// The highlight's colors and selector are written on the cursor's row
    /// alone.
    pub proof fn lemma_highlight_start_pen(self, pen: Pen)
        requires
            line_breaks(self.selector) == 0,
        ensures
            pen.after(self.highlight_start()) == (Pen {
                row: pen.row,
                touched: pen.touched.insert(pen.row),
            }),
    {
        pen.lemma_after_three(
            Draw::SetForeground(self.selected_foreground_color),
            Draw::SetBackground(self.selected_background_color),
            Draw::Print(self.selector),
        );
        pen.lemma_print_on_one_line(self.selector);
    }

    /// One row of the full repaint is written on the cursor's row alone and
    /// leaves the cursor one row further down.
    pub proof fn lemma_display_row_pen(self, pen: Pen, index: int)
        requires
            self.rows_on_one_line(),
            0 <= index < self.options.len(),
        ensures
            pen.after(self.display_row(index)) == (Pen {
                row: pen.row + 1,
                touched: pen.touched.insert(pen.row),
            }),
    {
        let text = self.options[index];
        let written = Pen { row: pen.row, touched: pen.touched.insert(pen.row) };
        assert(written.touched.insert(pen.row) =~= written.touched);
        if index == self.selected_index {
            let tail = seq![Draw::Print(text), Draw::MoveToNextLine(1), Draw::ResetColor];
            pen.lemma_after_concat(self.highlight_start(), tail);
            self.lemma_highlight_start_pen(pen);
            written.lemma_after_three(
                Draw::Print(text),
                Draw::MoveToNextLine(1),
                Draw::ResetColor,
            );
            written.lemma_print_on_one_line(text);
        } else {
            pen.lemma_after_concat(self.plain_row(text), seq![Draw::MoveToNextLine(1)]);
            self.lemma_plain_row_pen(pen, text);
            written.lemma_after_one(Draw::MoveToNextLine(1));
        }
    }

    /// The first `count` rows of the full repaint take the cursor `count`
    /// rows down: the option at each index is written on the row that many
    /// rows below the first.
    pub proof fn lemma_display_rows_pen(self, pen: Pen, count: nat)
        requires
            self.rows_on_one_line(),
            count <= self.options.len(),
        ensures
            pen.after(self.display_rows(count)).row == pen.row + count,
        decreases count,
    {
        if count > 0 {
            let before = self.display_rows((count - 1) as nat);
            self.lemma_display_rows_pen(pen, (count - 1) as nat);
            pen.lemma_after_concat(before, self.display_row(count - 1));
            self.lemma_display_row_pen(pen.after(before), count - 1);
        }
    }

    /// The full repaint writes the option at `index` on that option's screen
    /// row: the cursor is there when the rows before it are painted.
    pub proof fn lemma_display_places_rows(self, pen: Pen, index: nat)
        requires
            self.wf(),
            self.rows_on_one_line(),
            index < self.options.len(),
        ensures
            pen.after(
                seq![
                    Draw::ClearScreen,
                    Draw::MoveTo(0, 0),
                    Draw::Print(self.title.push('\n')),
                ] + self.display_rows(index),
            ).row == self.screen_row(index),
    {
        let head = seq![
            Draw::ClearScreen,
            Draw::MoveTo(0, 0),
            Draw::Print(self.title.push('\n')),
        ];
        pen.lemma_after_three(
            Draw::ClearScreen,
            Draw::MoveTo(0, 0),
            Draw::Print(self.title.push('\n')),
        );
        assert(self.title.push('\n').drop_last() =~= self.title);
        pen.lemma_after_concat(head, self.display_rows(index));
        self.lemma_display_rows_pen(pen.after(head), index);
    }

    /// The full repaint leaves the cursor on the highlighted option's screen
    /// row, wherever it started.
    pub proof fn lemma_display_ends_on_highlight(self, pen: Pen)
        ensures
            pen.after(self.display_ops()).row == self.screen_row(self.selected_index),
    {
        let target = Draw::MoveTo(0, self.screen_row(self.selected_index));
        let before = seq![
            Draw::ClearScreen,
            Draw::MoveTo(0, 0),
            Draw::Print(self.title.push('\n')),
        ] + self.display_rows(self.options.len());
        assert(self.display_ops() =~= before.push(target));
        pen.lemma_after_push(before, target);
    }

    /// A move writes on two rows and no other, the one that the highlight
    /// left and the one that it is on now, and leaves the cursor on the
    /// latter.
    pub proof fn lemma_move_pen(self, direction: Direction)
        requires
            self.wf(),
            self.rows_on_one_line(),
            self.can_move(direction),
        ensures
            Pen::at(self.screen_row(self.selected_index) as int).after(self.move_ops(direction))
                == (Pen {
                row: self.screen_row(self.moved(direction).selected_index) as int,
                touched: set![
                    self.screen_row(self.selected_index) as int,
                    self.screen_row(self.moved(direction).selected_index) as int,
                ],
            }),
    {
        let from = self.screen_row(self.selected_index) as int;
        let to = self.screen_row(self.moved(direction).selected_index) as int;
        let current = self.options[self.selected_index as int];
        let next = self.options[self.moved(direction).selected_index as int];
        let start = Pen::at(from);
        let first = seq![Draw::ClearLine];
        let second = self.plain_row(current);
        let third = seq![Self::line_step(direction), Draw::ClearLine];
        let fourth = self.highlight_start();
        let fifth = seq![Draw::Print(next), Draw::MoveToColumn(1), Draw::ResetColor];
        let left = Pen { row: from, touched: set![from] };
        let entered = Pen { row: to, touched: set![from, to] };
        start.lemma_after_one(Draw::ClearLine);
        assert(start.after(first) == left) by {
            assert(Set::<int>::empty().insert(from) =~= set![from]);
        }
        self.lemma_plain_row_pen(left, current);
        assert(left.after(second) == left) by {
            assert(set![from].insert(from) =~= set![from]);
        }
        left.lemma_after_two(Self::line_step(direction), Draw::ClearLine);
        assert(left.after(third) == entered) by {
            assert(set![from].insert(to) =~= set![from, to]);
        }
        self.lemma_highlight_start_pen(entered);
        assert(entered.after(fourth) == entered) by {
            assert(set![from, to].insert(to) =~= set![from, to]);
        }
        entered.lemma_after_three(Draw::Print(next), Draw::MoveToColumn(1), Draw::ResetColor);
        entered.lemma_print_on_one_line(next);
        assert(entered.after(fifth) == entered) by {
            assert(set![from, to].insert(to) =~= set![from, to]);
        }
        start.lemma_after_concat(first, second);
        start.lemma_after_concat(first + second, third);
        start.lemma_after_concat(first + second + third, fourth);
        start.lemma_after_concat(first + second + third + fourth, fifth);
    }
}

} // verus!
