//! The single-select menu as a mathematical value: its state, the draw
//! operations of each repaint, and the state machine that key presses drive.

use vstd::prelude::*;
use crate::cursor::Pen;
use crate::draw::{paints_only, Draw};
use crate::error::ValidationError;
use crate::input::{Command, Direction};
use crate::layout::{layout_error, lemma_no_error_anywhere};
use crate::session::{restore_ops, SessionModel};
use crate::style::Color;
use crate::terminal::Size;
use crate::text::{byte_len, line_breaks};

verus! {

/// The state of a single-select menu.
pub struct MenuView {
    /// The title; it may hold line breaks.
    pub title: Seq<char>,
    /// The options, in the order of their rows.
    pub options: Seq<Seq<char>>,
    /// The index of the highlighted row.
    pub selected_index: nat,
    /// The glyph drawn before the highlighted row.
    pub selector: Seq<char>,
    pub selected_foreground_color: Color,
    pub selected_background_color: Color,
}

impl MenuView {
    /// The menu of these parts in the default colors: white on black for the
    /// highlighted row.
    pub open spec fn fresh(
        title: Seq<char>,
        options: Seq<Seq<char>>,
        selected_index: nat,
        selector: Seq<char>,
    ) -> MenuView {
        MenuView {
            title,
            options,
            selected_index,
            selector,
            selected_foreground_color: Color::White,
            selected_background_color: Color::Black,
        }
    }

    /// The menu that stands in where none was configured: three options
    /// with the first highlighted, in the terminal's own colors.
    pub open spec fn standard() -> MenuView {
        MenuView {
            title: "Single Select Menu"@,
            options: seq!["Option 1"@, "Option 2"@, "Option 3"@],
            selected_index: 0,
            selector: "=> "@,
            selected_foreground_color: Color::Reset,
            selected_background_color: Color::Reset,
        }
    }

    /// A menu that is accepted for a terminal can be shown.
    pub proof fn lemma_accepted_is_well_formed(self, size: Option<Size>)
        requires
            self.verdict(size) is None,
        ensures
            self.wf(),
    {
        let cols = size->0.cols;
        lemma_no_error_anywhere(self.options, byte_len(self.selector), cols, self.options.len(), 0);
    }

    /// What keeps the menu from fitting a terminal of the size `size`.
    pub open spec fn layout_error(self, size: Size) -> Option<ValidationError> {
        layout_error(self.title, self.options, byte_len(self.selector), size)
    }

    /// Why the menu is refused for a terminal whose size was found to be
    /// `size`, or none where it is accepted. A highlight that is on no row
    /// comes first, and is found whatever the terminal; after it an unknown
    /// size; then the layout.
    pub open spec fn verdict(self, size: Option<Size>) -> Option<ValidationError> {
        if self.selected_index >= self.options.len() {
            Some(ValidationError::SelectedIndexOutOfRange(self.selected_index as usize))
        } else {
            match size {
                None => Some(ValidationError::TerminalSizeUnknown),
                Some(size) => self.layout_error(size),
            }
        }
    }

    /// The highlight is on a row of the list, and every distance that a
    /// repaint sends to the terminal fits its 16-bit coordinates.
    pub open spec fn wf(self) -> bool {
        &&& self.selected_index < self.options.len()
        &&& self.options.len() + line_breaks(self.title) + 1 <= u16::MAX
        &&& byte_len(self.selector) <= u16::MAX
    }

    /// The width that a row without a selector is indented by.
    pub open spec fn indent(self) -> u16 {
        byte_len(self.selector) as u16
    }

    /// The screen row of the option at `index`: the title's lines come first.
    pub open spec fn screen_row(self, index: nat) -> u16 {
        (index + line_breaks(self.title) + 1) as u16
    }

    /// A row with the text `text`, drawn without highlight: indented by the
    /// selector's width.
    pub open spec fn plain_row(self, text: Seq<char>) -> Seq<Draw> {
        seq![Draw::MoveRight(self.indent()), Draw::Print(text)]
    }

    /// The operations that choose the highlight's colors and draw the
    /// selector.
    pub open spec fn highlight_start(self) -> Seq<Draw> {
        seq![
            Draw::SetForeground(self.selected_foreground_color),
            Draw::SetBackground(self.selected_background_color),
            Draw::Print(self.selector),
        ]
    }

    /// One row of the full repaint, ending on the line below it.
    pub open spec fn display_row(self, index: int) -> Seq<Draw> {
        if index == self.selected_index {
            self.highlight_start() + seq![
                Draw::Print(self.options[index]),
                Draw::MoveToNextLine(1),
                Draw::ResetColor,
            ]
        } else {
            self.plain_row(self.options[index]) + seq![Draw::MoveToNextLine(1)]
        }
    }

    /// The first `count` rows of the full repaint.
    pub open spec fn display_rows(self, count: nat) -> Seq<Draw>
        decreases count,
    {
        if count == 0 {
            seq![]
        } else {
            self.display_rows((count - 1) as nat) + self.display_row(count - 1)
        }
    }

    /// The rows of the full repaint touch the terminal's mode nowhere.
    pub proof fn lemma_rows_paint_only(self, count: nat)
        ensures
            forall|i: int|
                0 <= i < self.display_rows(count).len() ==> paints_only(
                    #[trigger] self.display_rows(count)[i],
                ),
        decreases count,
    {
        if count > 0 {
            self.lemma_rows_paint_only((count - 1) as nat);
            let before = self.display_rows((count - 1) as nat);
            let row = self.display_row(count - 1);
            assert forall|i: int| 0 <= i < (before + row).len() implies paints_only(
                #[trigger] (before + row)[i],
            ) by {
                if i >= before.len() {
                    assert((before + row)[i] == row[i - before.len()]);
                }
            }
        }
    }

    /// Tells whether the highlight has a row to move to in `direction`.
    pub open spec fn can_move(self, direction: Direction) -> bool {
        match direction {
            Direction::Up => self.selected_index > 0,
            Direction::Down => self.selected_index + 1 < self.options.len(),
        }
    }

    /// The state after the highlight has moved in `direction`, or the same
    /// state where it has no row to move to.
    pub open spec fn moved(self, direction: Direction) -> MenuView {
        if self.can_move(direction) {
            match direction {
                Direction::Up => MenuView {
                    selected_index: (self.selected_index - 1) as nat,
                    ..self
                },
                Direction::Down => MenuView { selected_index: self.selected_index + 1, ..self },
            }
        } else {
            self
        }
    }

    /// The operation that takes the cursor one line in `direction`.
    pub open spec fn line_step(direction: Direction) -> Draw {
        match direction {
            Direction::Up => Draw::MoveToPreviousLine(1),
            Direction::Down => Draw::MoveToNextLine(1),
        }
    }

    /// The incremental repaint of a move in `direction`: the row that the
    /// cursor is on is redrawn plain with the text `current`, and the row
    /// next to it is redrawn highlighted with the text `next`.
    pub open spec fn repaint_ops(self, direction: Direction, current: Seq<char>, next: Seq<char>) -> Seq<
        Draw,
    > {
        seq![Draw::ClearLine] + self.plain_row(current) + seq![
            Self::line_step(direction),
            Draw::ClearLine,
        ] + self.highlight_start() + seq![
            Draw::Print(next),
            Draw::MoveToColumn(1),
            Draw::ResetColor,
        ]
    }

    /// What a move in `direction` draws: the two rows that change, or
    /// nothing where the highlight stays.
    pub open spec fn move_ops(self, direction: Direction) -> Seq<Draw> {
        if self.can_move(direction) {
            self.repaint_ops(
                direction,
                self.options[self.selected_index as int],
                self.options[self.moved(direction).selected_index as int],
            )
        } else {
            seq![]
        }
    }
}

impl SessionModel for MenuView {
    type Choice = usize;

    open spec fn after(self, command: Command) -> MenuView {
        match command {
            Command::MoveUp => self.moved(Direction::Up),
            Command::MoveDown => self.moved(Direction::Down),
            _ => self,
        }
    }

    open spec fn ops_for(self, command: Command) -> Seq<Draw> {
        match command {
            Command::MoveUp => self.move_ops(Direction::Up),
            Command::MoveDown => self.move_ops(Direction::Down),
            Command::Confirm | Command::Cancel | Command::Abort => restore_ops(),
            Command::Toggle | Command::Ignore => seq![],
        }
    }

    /// The highlighted row on confirming, none otherwise.
    open spec fn result_for(self, command: Command) -> Option<usize> {
        match command {
            Command::Confirm => Some(self.selected_index as usize),
            _ => None,
        }
    }

    /// A clear screen, the title, every row, and the cursor back on the
    /// highlighted row.
    open spec fn display_ops(self) -> Seq<Draw> {
        seq![Draw::ClearScreen, Draw::MoveTo(0, 0), Draw::Print(self.title.push('\n'))]
            + self.display_rows(self.options.len()) + seq![
            Draw::MoveTo(0, self.screen_row(self.selected_index)),
        ]
    }

    proof fn lemma_ending_command(self, command: Command) {
    }

    proof fn lemma_running_command(self, command: Command) {
    }

    proof fn lemma_display_paints_only(self) {
        self.lemma_rows_paint_only(self.options.len());
    }

    open spec fn laid_out(self) -> bool {
        self.wf() && self.rows_on_one_line()
    }

    open spec fn highlight_row(self) -> int {
        self.screen_row(self.selected_index) as int
    }

    proof fn lemma_display_finds_highlight(self, pen: Pen) {
        self.lemma_display_ends_on_highlight(pen);
    }

    proof fn lemma_command_follows_highlight(self, command: Command, pen: Pen) {
        let from = Pen::at(pen.row);
        pen.lemma_row_ignores_touched(from, self.ops_for(command));
        if command == Command::MoveUp && self.can_move(Direction::Up) {
            self.lemma_move_pen(Direction::Up);
        } else if command == Command::MoveDown && self.can_move(Direction::Down) {
            self.lemma_move_pen(Direction::Down);
        }
    }
}

} // verus!
