//! What holds of every session of a multi-select menu.

use vstd::prelude::*;
use crate::cursor::Pen;
use crate::draw::Draw;
use crate::input::{Command, Direction, KeyPress, Phase};
use crate::model::MenuView;
use crate::multi_model::MultiMenuView;
use crate::session::{lemma_run_one_more, run, SessionModel};
use crate::text::line_breaks;

verus! {

impl MultiMenuView {
    /// Checking or unchecking the highlighted row changes the checked state
    /// of that row and of no other.
    pub proof fn lemma_toggle_changes_one_row(self)
        ensures
            self.toggled().selected_options.contains(self.menu.selected_index as usize)
                != self.selected_options.contains(self.menu.selected_index as usize),
            forall|index: usize|
                index != self.menu.selected_index as usize ==> (
                #[trigger] self.toggled().selected_options.contains(index)
                    == self.selected_options.contains(index)),
            self.toggled().menu == self.menu,
    {
    }

    /// Checking the highlighted row and unchecking it again, or the other
    /// way round, gives the menu as it was.
    pub proof fn lemma_toggle_twice(self)
        ensures
            self.toggled().toggled() == self,
            self.after(Command::Toggle).after(Command::Toggle) == self,
    {
        assert(self.toggled().toggled().selected_options =~= self.selected_options);
    }

    /// No command takes the highlight off the list or checks an index that
    /// is no row.
    pub proof fn lemma_command_keeps_in_range(self, command: Command)
        requires
            self.menu.highlight_in_range(),
            self.checked_in_range(),
        ensures
            self.after(command).menu.highlight_in_range(),
            self.after(command).checked_in_range(),
            self.after(command).menu.options == self.menu.options,
    {
    }

    /// Whatever keys are pressed, the highlight stays on a row of the list
    /// and every checked index stays a row of the list.
    pub proof fn lemma_stays_in_range(self, keys: Seq<KeyPress>)
        requires
            self.menu.highlight_in_range(),
            self.checked_in_range(),
        ensures
            run(self, keys).model.menu.highlight_in_range(),
            run(self, keys).model.checked_in_range(),
            run(self, keys).model.menu.options == self.menu.options,
        decreases keys.len(),
    {
        if keys.len() > 0 {
            let command = keys[0].command_spec();
            if !command.ends_session() {
                self.lemma_command_keeps_in_range(command);
                self.after(command).lemma_stays_in_range(keys.drop_first());
            }
        }
    }

    /// Confirming leaves the session with exactly the rows that are checked
    /// at that moment, and with no selection where none is checked.
    pub proof fn lemma_confirm_returns_checked(self, keys: Seq<KeyPress>, key: KeyPress)
        requires
            run(self, keys).phase == Phase::Running,
            key.command_spec() == Command::Confirm,
        ensures
            run(self, keys.push(key)).phase == Phase::Done,
            run(self, keys).model.selected_options.is_empty() ==> run(self, keys.push(key)).result
                is None,
            !run(self, keys).model.selected_options.is_empty() ==> run(
                self,
                keys.push(key),
            ).result == Some(run(self, keys).model.selected_options),
    {
        lemma_run_one_more(self, keys, key);
    }

    /// Cancelling leaves the session without a selection, wherever the
    /// highlight is and whatever is checked.
    pub proof fn lemma_cancel_returns_nothing(self, keys: Seq<KeyPress>, key: KeyPress)
        requires
            run(self, keys).phase == Phase::Running,
            key.command_spec() == Command::Cancel,
        ensures
            run(self, keys.push(key)).phase == Phase::Done,
            run(self, keys.push(key)).result is None,
    {
        lemma_run_one_more(self, keys, key);
    }

    /// Tells whether every row takes one line of the screen: neither a
    /// selector nor an option holds a line break.
    pub open spec fn rows_on_one_line(self) -> bool {
        &&& self.menu.rows_on_one_line()
        &&& line_breaks(self.selected_selector) == 0
    }

    /// The highlighted row's colors and selector are written on the
    /// cursor's row alone.
    pub proof fn lemma_highlight_start_pen(self, pen: Pen, checked: bool)
        requires
            line_breaks(self.menu.selector) == 0,
        ensures
            pen.after(self.highlight_start(checked)) == (Pen {
                row: pen.row,
                touched: pen.touched.insert(pen.row),
            }),
    {
        if checked {
            pen.lemma_after_three(
                Draw::SetForeground(self.selected_selected_option_foreground_color),
                Draw::SetBackground(self.selected_selected_option_background_color),
                Draw::Print(self.menu.selector),
            );
            pen.lemma_print_on_one_line(self.menu.selector);
        } else {
            self.menu.lemma_highlight_start_pen(pen);
        }
    }

    /// A checked row's colors and glyph are written on the cursor's row
    /// alone.
    pub proof fn lemma_checked_start_pen(self, pen: Pen)
        requires
            line_breaks(self.selected_selector) == 0,
        ensures
            pen.after(self.checked_start()) == (Pen {
                row: pen.row,
                touched: pen.touched.insert(pen.row),
            }),
    {
        pen.lemma_after_three(
            Draw::SetForeground(self.selected_option_foreground_color),
            Draw::SetBackground(self.selected_option_background_color),
            Draw::Print(self.selected_selector),
        );
        pen.lemma_print_on_one_line(self.selected_selector);
    }

    /// One row of the full repaint is written on the cursor's row alone and
    /// leaves the cursor one row further down.
    pub proof fn lemma_display_row_pen(self, pen: Pen, index: int)
        requires
            self.rows_on_one_line(),
            0 <= index < self.menu.options.len(),
        ensures
            pen.after(self.display_row(index)) == (Pen {
                row: pen.row + 1,
                touched: pen.touched.insert(pen.row),
            }),
    {
        let text = self.menu.options[index];
        let written = Pen { row: pen.row, touched: pen.touched.insert(pen.row) };
        let tail = seq![Draw::Print(text), Draw::MoveToNextLine(1), Draw::ResetColor];
        assert(written.touched.insert(pen.row) =~= written.touched);
        if index == self.menu.selected_index {
            pen.lemma_after_concat(self.highlight_start(self.is_checked(index)), tail);
            self.lemma_highlight_start_pen(pen, self.is_checked(index));
            written.lemma_after_three(
                Draw::Print(text),
                Draw::MoveToNextLine(1),
                Draw::ResetColor,
            );
            written.lemma_print_on_one_line(text);
        } else if self.is_checked(index) {
            pen.lemma_after_concat(self.checked_start(), tail);
            self.lemma_checked_start_pen(pen);
            written.lemma_after_three(
                Draw::Print(text),
                Draw::MoveToNextLine(1),
                Draw::ResetColor,
            );
            written.lemma_print_on_one_line(text);
        } else {
            pen.lemma_after_concat(self.menu.plain_row(text), seq![Draw::MoveToNextLine(1)]);
            self.menu.lemma_plain_row_pen(pen, text);
            written.lemma_after_one(Draw::MoveToNextLine(1));
        }
    }

    /// The first `count` rows of the full repaint take the cursor `count`
    /// rows down: the option at each index is written on the row that many
    /// rows below the first.
    pub proof fn lemma_display_rows_pen(self, pen: Pen, count: nat)
        requires
            self.rows_on_one_line(),
            count <= self.menu.options.len(),
        ensures
            pen.after(self.display_rows(count)).row == pen.row + count,
        decreases count,
    {
        if count > 0 {
            let before = self.display_rows((count - 1) as nat);
            self.lemma_display_rows_pen(pen, (count - 1) as nat);
            pen.lemma_after_concat(before, self.display_row(count - 1));
            self.lemma_display_row_pen(pen.after(before), count - 1);
        }
    }

    /// The full repaint writes the option at `index` on that option's screen
    /// row: the cursor is there when the rows before it are painted.
    pub proof fn lemma_display_places_rows(self, pen: Pen, index: nat)
        requires
            self.menu.wf(),
            self.rows_on_one_line(),
            index < self.menu.options.len(),
        ensures
            pen.after(
                seq![
                    Draw::ClearScreen,
                    Draw::MoveTo(0, 0),
                    Draw::Print(self.menu.title.push('\n')),
                ] + self.display_rows(index),
            ).row == self.menu.screen_row(index),
    {
        let head = seq![
            Draw::ClearScreen,
            Draw::MoveTo(0, 0),
            Draw::Print(self.menu.title.push('\n')),
        ];
        pen.lemma_after_three(
            Draw::ClearScreen,
            Draw::MoveTo(0, 0),
            Draw::Print(self.menu.title.push('\n')),
        );
        assert(self.menu.title.push('\n').drop_last() =~= self.menu.title);
        pen.lemma_after_concat(head, self.display_rows(index));
        self.lemma_display_rows_pen(pen.after(head), index);
    }

    /// The full repaint leaves the cursor on the highlighted option's screen
    /// row, wherever it started.
    pub proof fn lemma_display_ends_on_highlight(self, pen: Pen)
        ensures
            pen.after(self.display_ops()).row == self.menu.screen_row(self.menu.selected_index),
    {
        let target = Draw::MoveTo(0, self.menu.screen_row(self.menu.selected_index));
        let before = seq![
            Draw::ClearScreen,
            Draw::MoveTo(0, 0),
            Draw::Print(self.menu.title.push('\n')),
        ] + self.display_rows(self.menu.options.len());
        assert(self.display_ops() =~= before.push(target));
        pen.lemma_after_push(before, target);
    }

    /// A row that the highlight has left is rewritten on the cursor's row
    /// alone.
    pub proof fn lemma_left_row_pen(self, pen: Pen, checked: bool, text: Seq<char>)
        requires
            self.rows_on_one_line(),
            line_breaks(text) == 0,
        ensures
            pen.after(self.left_row(checked, text)) == (Pen {
                row: pen.row,
                touched: pen.touched.insert(pen.row),
            }),
    {
        if checked {
            let written = Pen { row: pen.row, touched: pen.touched.insert(pen.row) };
            assert(written.touched.insert(pen.row) =~= written.touched);
            pen.lemma_after_concat(self.checked_start(), seq![Draw::Print(text), Draw::ResetColor]);
            self.lemma_checked_start_pen(pen);
            written.lemma_after_two(Draw::Print(text), Draw::ResetColor);
            written.lemma_print_on_one_line(text);
        } else {
            self.menu.lemma_plain_row_pen(pen, text);
        }
    }

    /// A move writes on two rows and no other, the one that the highlight
    /// left and the one that it is on now, and leaves the cursor on the
    /// latter.
    pub proof fn lemma_move_pen(self, direction: Direction)
        requires
            self.menu.wf(),
            self.rows_on_one_line(),
            self.menu.can_move(direction),
        ensures
            Pen::at(self.menu.screen_row(self.menu.selected_index) as int).after(
                self.move_ops(direction),
            ) == (Pen {
                row: self.menu.screen_row(self.menu.moved(direction).selected_index) as int,
                touched: set![
                    self.menu.screen_row(self.menu.selected_index) as int,
                    self.menu.screen_row(self.menu.moved(direction).selected_index) as int,
                ],
            }),
    {
        let old_index = self.menu.selected_index as int;
        let new_index = self.menu.moved(direction).selected_index as int;
        let from = self.menu.screen_row(self.menu.selected_index) as int;
        let to = self.menu.screen_row(self.menu.moved(direction).selected_index) as int;
        let current = self.menu.options[old_index];
        let next = self.menu.options[new_index];
        let start = Pen::at(from);
        let first = seq![Draw::ClearLine];
        let second = self.left_row(self.is_checked(old_index), current);
        let third = seq![MenuView::line_step(direction), Draw::ClearLine];
        let fourth = self.highlight_start(self.is_checked(new_index));
        let fifth = seq![Draw::Print(next), Draw::ResetColor, Draw::MoveToColumn(1)];
        let left = Pen { row: from, touched: set![from] };
        let entered = Pen { row: to, touched: set![from, to] };
        start.lemma_after_one(Draw::ClearLine);
        assert(start.after(first) == left) by {
            assert(Set::<int>::empty().insert(from) =~= set![from]);
        }
        self.lemma_left_row_pen(left, self.is_checked(old_index), current);
        assert(left.after(second) == left) by {
            assert(set![from].insert(from) =~= set![from]);
        }
        left.lemma_after_two(MenuView::line_step(direction), Draw::ClearLine);
        assert(left.after(third) == entered) by {
            assert(set![from].insert(to) =~= set![from, to]);
        }
        self.lemma_highlight_start_pen(entered, self.is_checked(new_index));
        assert(entered.after(fourth) == entered) by {
            assert(set![from, to].insert(to) =~= set![from, to]);
        }
        entered.lemma_after_three(Draw::Print(next), Draw::ResetColor, Draw::MoveToColumn(1));
        entered.lemma_print_on_one_line(next);
        assert(entered.after(fifth) == entered) by {
            assert(set![from, to].insert(to) =~= set![from, to]);
        }
        start.lemma_after_concat(first, second);
        start.lemma_after_concat(first + second, third);
        start.lemma_after_concat(first + second + third, fourth);
        start.lemma_after_concat(first + second + third + fourth, fifth);
    }

    /// Checking or unchecking writes on the highlighted row and no other,
    /// and leaves the cursor on it.
    pub proof fn lemma_toggle_pen(self)
        requires
            self.menu.wf(),
            self.rows_on_one_line(),
        ensures
            Pen::at(self.menu.screen_row(self.menu.selected_index) as int).after(self.toggle_ops())
                == (Pen {
                row: self.menu.screen_row(self.menu.selected_index) as int,
                touched: set![self.menu.screen_row(self.menu.selected_index) as int],
            }),
    {
        let index = self.menu.selected_index as int;
        let row = self.menu.screen_row(self.menu.selected_index) as int;
        let start = Pen::at(row);
        let written = Pen { row, touched: set![row] };
        let first = seq![Draw::ClearLine];
        let second = self.highlight_start(!self.is_checked(index));
        let third = seq![
            Draw::Print(self.menu.options[index]),
            Draw::ResetColor,
            Draw::MoveToColumn(1),
        ];
        start.lemma_after_one(Draw::ClearLine);
        assert(start.after(first) == written) by {
            assert(Set::<int>::empty().insert(row) =~= set![row]);
        }
        assert(set![row].insert(row) =~= set![row]);
        self.lemma_highlight_start_pen(written, !self.is_checked(index));
        written.lemma_after_three(
            Draw::Print(self.menu.options[index]),
            Draw::ResetColor,
            Draw::MoveToColumn(1),
        );
        written.lemma_print_on_one_line(self.menu.options[index]);
        start.lemma_after_concat(first, second);
        start.lemma_after_concat(first + second, third);
    }
}

} // verus!
