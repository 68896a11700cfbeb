//! The multi-select menu as a mathematical value: a single-select menu's
//! state, the set of checked rows, and the styles of checked rows.

use vstd::prelude::*;
use crate::cursor::Pen;
use crate::draw::{paints_only, Draw};
use crate::error::ValidationError;
use crate::input::{Command, Direction};
use crate::model::MenuView;
use crate::session::{restore_ops, SessionModel};
use crate::style::Color;
use crate::terminal::Size;
use crate::text::byte_len;

verus! {

/// The state of a multi-select menu.
pub struct MultiMenuView {
    /// Title, options, highlight and the highlight's style.
    pub menu: MenuView,
    /// The indices of the checked rows.
    pub selected_options: Set<usize>,
    /// The glyph drawn before a checked row that is not highlighted.
    pub selected_selector: Seq<char>,
    /// The colors of a checked row that is not highlighted.
    pub selected_option_foreground_color: Color,
    pub selected_option_background_color: Color,
    /// The colors of the highlighted row where it is checked.
    pub selected_selected_option_foreground_color: Color,
    pub selected_selected_option_background_color: Color,
}

impl MultiMenuView {
    /// The menu of these parts in the default colors: white on black for the
    /// highlighted row and for checked rows, black on black for the
    /// highlighted row where it is checked.
    pub open spec fn fresh(
        title: Seq<char>,
        options: Seq<Seq<char>>,
        selected_index: nat,
        selector: Seq<char>,
        selected_options: Set<usize>,
        selected_selector: Seq<char>,
    ) -> MultiMenuView {
        MultiMenuView {
            menu: MenuView::fresh(title, options, selected_index, selector),
            selected_options,
            selected_selector,
            selected_option_foreground_color: Color::White,
            selected_option_background_color: Color::Black,
            selected_selected_option_foreground_color: Color::Black,
            selected_selected_option_background_color: Color::Black,
        }
    }

    /// The menu that stands in where none was configured: three options
    /// with the first highlighted and none checked, in the terminal's own
    /// colors.
    pub open spec fn standard() -> MultiMenuView {
        MultiMenuView {
            menu: MenuView { title: "Multi Select Menu"@, ..MenuView::standard() },
            selected_options: Set::empty(),
            selected_selector: "-> "@,
            selected_option_foreground_color: Color::Reset,
            selected_option_background_color: Color::Reset,
            selected_selected_option_foreground_color: Color::Reset,
            selected_selected_option_background_color: Color::Reset,
        }
    }

    /// Every checked index is a row of the list.
    pub open spec fn checked_in_range(self) -> bool {
        forall|index: usize| #[trigger]
            self.selected_options.contains(index) ==> index < self.menu.options.len()
    }

    /// The menu can be shown, and every checked index is a row of the list.
    pub open spec fn wf(self) -> bool {
        &&& self.menu.wf()
        &&& self.checked_in_range()
    }

    /// Tells whether the row at `index` is checked.
    pub open spec fn is_checked(self, index: int) -> bool {
        0 <= index <= usize::MAX && self.selected_options.contains(index as usize)
    }

    /// Tells whether `error` is why the menu is refused for a terminal whose
    /// size was found to be `size`, with none where it is accepted. Selector
    /// glyphs of different lengths come first; then a highlight that is on
    /// no row; then a checked index that is no row, any one of them; then
    /// what the single-select menu is refused for.
    pub open spec fn refused_with(self, size: Option<Size>, error: Option<ValidationError>) -> bool {
        if byte_len(self.selected_selector) != byte_len(self.menu.selector) {
            error == Some(ValidationError::SelectorLengthMismatch)
        } else if self.menu.selected_index >= self.menu.options.len() {
            error == Some(
                ValidationError::SelectedIndexOutOfRange(self.menu.selected_index as usize),
            )
        } else if !self.checked_in_range() {
            error matches Some(ValidationError::CheckedIndexOutOfRange(index))
                && self.selected_options.contains(index) && index >= self.menu.options.len()
        } else {
            error == self.menu.verdict(size)
        }
    }

    /// The operations that choose the highlighted row's colors, which depend
    /// on whether it is checked, and draw the selector.
    pub open spec fn highlight_start(self, checked: bool) -> Seq<Draw> {
        if checked {
            seq![
                Draw::SetForeground(self.selected_selected_option_foreground_color),
                Draw::SetBackground(self.selected_selected_option_background_color),
                Draw::Print(self.menu.selector),
            ]
        } else {
            self.menu.highlight_start()
        }
    }

    /// The operations that choose a checked row's colors and draw its glyph.
    pub open spec fn checked_start(self) -> Seq<Draw> {
        seq![
            Draw::SetForeground(self.selected_option_foreground_color),
            Draw::SetBackground(self.selected_option_background_color),
            Draw::Print(self.selected_selector),
        ]
    }

    /// One row of the full repaint, ending on the line below it. The
    /// highlight's style goes before the checked style.
    pub open spec fn display_row(self, index: int) -> Seq<Draw> {
        let text = self.menu.options[index];
        if index == self.menu.selected_index {
            self.highlight_start(self.is_checked(index)) + seq![
                Draw::Print(text),
                Draw::MoveToNextLine(1),
                Draw::ResetColor,
            ]
        } else if self.is_checked(index) {
            self.checked_start() + seq![
                Draw::Print(text),
                Draw::MoveToNextLine(1),
                Draw::ResetColor,
            ]
        } else {
            self.menu.plain_row(text) + seq![Draw::MoveToNextLine(1)]
        }
    }

    /// The first `count` rows of the full repaint.
    pub open spec fn display_rows(self, count: nat) -> Seq<Draw>
        decreases count,
    {
        if count == 0 {
            seq![]
        } else {
            self.display_rows((count - 1) as nat) + self.display_row(count - 1)
        }
    }

    /// The rows of the full repaint touch the terminal's mode nowhere.
    pub proof fn lemma_rows_paint_only(self, count: nat)
        ensures
            forall|i: int|
                0 <= i < self.display_rows(count).len() ==> paints_only(
                    #[trigger] self.display_rows(count)[i],
                ),
        decreases count,
    {
        if count > 0 {
            self.lemma_rows_paint_only((count - 1) as nat);
            let before = self.display_rows((count - 1) as nat);
            let row = self.display_row(count - 1);
            assert forall|i: int| 0 <= i < (before + row).len() implies paints_only(
                #[trigger] (before + row)[i],
            ) by {
                if i >= before.len() {
                    assert((before + row)[i] == row[i - before.len()]);
                }
            }
        }
    }

    /// A row that the highlight has left, drawn with the text `text`: in the
    /// checked style where `checked`, plain otherwise.
    pub open spec fn left_row(self, checked: bool, text: Seq<char>) -> Seq<Draw> {
        if checked {
            self.checked_start() + seq![Draw::Print(text), Draw::ResetColor]
        } else {
            self.menu.plain_row(text)
        }
    }

    /// The incremental repaint of a move in `direction`: the row that the
    /// cursor is on is redrawn without highlight, with the text `current`,
    /// and the row next to it is redrawn highlighted, with the text `next`.
    /// `left_checked` and `entered_checked` say whether the one and the other
    /// are checked.
    pub open spec fn repaint_ops(
        self,
        direction: Direction,
        left_checked: bool,
        entered_checked: bool,
        current: Seq<char>,
        next: Seq<char>,
    ) -> Seq<Draw> {
        seq![Draw::ClearLine] + self.left_row(left_checked, current) + seq![
            MenuView::line_step(direction),
            Draw::ClearLine,
        ] + self.highlight_start(entered_checked) + seq![
            Draw::Print(next),
            Draw::ResetColor,
            Draw::MoveToColumn(1),
        ]
    }

    /// The row that the highlight was on before it came to its row by a
    /// move in `direction`.
    pub open spec fn row_left(self, direction: Direction) -> int {
        match direction {
            Direction::Up => self.menu.selected_index as int + 1,
            Direction::Down => self.menu.selected_index as int - 1,
        }
    }

    /// The state after the highlight has moved in `direction`, or the same
    /// state where it has no row to move to.
    pub open spec fn moved(self, direction: Direction) -> MultiMenuView {
        MultiMenuView { menu: self.menu.moved(direction), ..self }
    }

    /// What a move in `direction` draws: the two rows that change, or
    /// nothing where the highlight stays.
    pub open spec fn move_ops(self, direction: Direction) -> Seq<Draw> {
        if self.menu.can_move(direction) {
            let from = self.menu.selected_index as int;
            let to = self.menu.moved(direction).selected_index as int;
            self.repaint_ops(
                direction,
                self.is_checked(from),
                self.is_checked(to),
                self.menu.options[from],
                self.menu.options[to],
            )
        } else {
            seq![]
        }
    }

    /// The state after the highlighted row was checked, if it was not, or
    /// unchecked, if it was.
    pub open spec fn toggled(self) -> MultiMenuView {
        let index = self.menu.selected_index as usize;
        if self.selected_options.contains(index) {
            MultiMenuView { selected_options: self.selected_options.remove(index), ..self }
        } else {
            MultiMenuView { selected_options: self.selected_options.insert(index), ..self }
        }
    }

    /// What checking or unchecking the highlighted row draws: that row, in
    /// the style of its new state.
    pub open spec fn toggle_ops(self) -> Seq<Draw> {
        let index = self.menu.selected_index as int;
        seq![Draw::ClearLine] + self.highlight_start(!self.is_checked(index)) + seq![
            Draw::Print(self.menu.options[index]),
            Draw::ResetColor,
            Draw::MoveToColumn(1),
        ]
    }

    /// The selection on confirming: the checked rows, or none where no row
    /// is checked.
    pub open spec fn confirmed(self) -> Option<Set<usize>> {
        if self.selected_options.is_empty() {
            None
        } else {
            Some(self.selected_options)
        }
    }
}

impl SessionModel for MultiMenuView {
    type Choice = Set<usize>;

    open spec fn after(self, command: Command) -> MultiMenuView {
        match command {
            Command::MoveUp => self.moved(Direction::Up),
            Command::MoveDown => self.moved(Direction::Down),
            Command::Toggle => self.toggled(),
            _ => self,
        }
    }

    open spec fn ops_for(self, command: Command) -> Seq<Draw> {
        match command {
            Command::MoveUp => self.move_ops(Direction::Up),
            Command::MoveDown => self.move_ops(Direction::Down),
            Command::Toggle => self.toggle_ops(),
            Command::Confirm | Command::Cancel | Command::Abort => restore_ops(),
            Command::Ignore => seq![],
        }
    }

    /// The checked rows on confirming, if any row is checked, and none
    /// otherwise.
    open spec fn result_for(self, command: Command) -> Option<Set<usize>> {
        match command {
            Command::Confirm => self.confirmed(),
            _ => None,
        }
    }

    /// A clear screen, the title, every row, and the cursor back on the
    /// highlighted row.
    open spec fn display_ops(self) -> Seq<Draw> {
        seq![Draw::ClearScreen, Draw::MoveTo(0, 0), Draw::Print(self.menu.title.push('\n'))]
            + self.display_rows(self.menu.options.len()) + seq![
            Draw::MoveTo(0, self.menu.screen_row(self.menu.selected_index)),
        ]
    }

    proof fn lemma_ending_command(self, command: Command) {
    }

    proof fn lemma_running_command(self, command: Command) {
    }

    proof fn lemma_display_paints_only(self) {
        self.lemma_rows_paint_only(self.menu.options.len());
    }

    open spec fn laid_out(self) -> bool {
        self.wf() && self.rows_on_one_line()
    }

    open spec fn highlight_row(self) -> int {
        self.menu.screen_row(self.menu.selected_index) as int
    }

    proof fn lemma_display_finds_highlight(self, pen: Pen) {
        self.lemma_display_ends_on_highlight(pen);
    }

    proof fn lemma_command_follows_highlight(self, command: Command, pen: Pen) {
        let from = Pen::at(pen.row);
        pen.lemma_row_ignores_touched(from, self.ops_for(command));
        self.lemma_command_keeps_in_range(command);
        if command == Command::MoveUp && self.menu.can_move(Direction::Up) {
            self.lemma_move_pen(Direction::Up);
        } else if command == Command::MoveDown && self.menu.can_move(Direction::Down) {
            self.lemma_move_pen(Direction::Down);
        } else if command == Command::Toggle {
            self.lemma_toggle_pen();
        }
    }
}

} // verus!
