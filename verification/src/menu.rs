//! The single-select menu.

use vstd::prelude::*;
use crate::draw::{draws, emit, nothing, DrawOp};
use crate::error::ValidationError;
use crate::input::{Command, Direction, KeyPress};
use crate::layout::check_layout;
use crate::menu_like::{chosen, MenuLike, Outcome};
use crate::model::MenuView;
use crate::session::{restore_ops, session, setup_ops, start_ops, SessionModel};
use crate::style::Color;
use crate::terminal::{terminal_size, Size};
use crate::text::{byte_len, byte_length, count_char, texts, with_line_break};

verus! {

/// The error of a refused construction, or none where it succeeded.
pub open spec fn refusal<T>(made: Result<T, ValidationError>) -> Option<ValidationError> {
    match made {
        Ok(_) => None,
        Err(error) => Some(error),
    }
}

/// A titled list of options, one of which is highlighted.
pub struct Menu {
    title: String,
    options: Vec<String>,
    selected_index: usize,
    selector: String,
    selected_foreground_color: Color,
    selected_background_color: Color,
}

impl View for Menu {
    type V = MenuView;

    closed spec fn view(&self) -> MenuView {
        MenuView {
            title: self.title@,
            options: texts(self.options@),
            selected_index: self.selected_index as nat,
            selector: self.selector@,
            selected_foreground_color: self.selected_foreground_color,
            selected_background_color: self.selected_background_color,
        }
    }
}

impl Menu {
    /// A menu of these parts, examined unless `ignore_warnings` is set. The
    /// examination asks for the size of the terminal behind standard output
    /// and goes on as [`Menu::validated`] does with the answer, so what is
    /// returned is what `validated` returns for some size or for none; a
    /// highlight that is on no row is refused whatever the answer.
    pub fn new(
        title: String,
        options: Vec<String>,
        selected_index: usize,
        selector: String,
        ignore_warnings: bool,
    ) -> (made: Result<Menu, ValidationError>)
        ensures
            made matches Ok(menu) ==> menu@ == MenuView::fresh(
                title@,
                texts(options@),
                selected_index as nat,
                selector@,
            ),
            ignore_warnings ==> made is Ok,
            !ignore_warnings ==> exists|size: Option<Size>|
                refusal(made) == #[trigger] MenuView::fresh(
                    title@,
                    texts(options@),
                    selected_index as nat,
                    selector@,
                ).verdict(size),
            !ignore_warnings && selected_index >= options.len() ==> refusal(made) == Some(
                ValidationError::SelectedIndexOutOfRange(selected_index),
            ),
            !ignore_warnings && made is Ok ==> MenuView::fresh(
                title@,
                texts(options@),
                selected_index as nat,
                selector@,
            ).wf(),
    {
        if ignore_warnings {
            Ok(Menu::unchecked(title, options, selected_index, selector))
        } else {
            let size = terminal_size();
            let made = Menu::validated(title, options, selected_index, selector, size);
            made
        }
    }

    /// A menu of these parts, examined for a terminal whose size was found
    /// to be `size`, or not found: the menu where
    /// [`MenuView::verdict`] has nothing against it, and else the error that
    /// `verdict` gives.
    pub fn validated(
        title: String,
        options: Vec<String>,
        selected_index: usize,
        selector: String,
        size: Option<Size>,
    ) -> (made: Result<Menu, ValidationError>)
        ensures
            made matches Ok(menu) ==> menu@ == MenuView::fresh(
                title@,
                texts(options@),
                selected_index as nat,
                selector@,
            ) && menu@.wf(),
            refusal(made) == MenuView::fresh(
                title@,
                texts(options@),
                selected_index as nat,
                selector@,
            ).verdict(size),
    {
        let ghost view = MenuView::fresh(title@, texts(options@), selected_index as nat, selector@);
        if selected_index >= options.len() {
            return Err(ValidationError::SelectedIndexOutOfRange(selected_index));
        }
        match size {
            None => Err(ValidationError::TerminalSizeUnknown),
            Some(size) => {
                let indent = byte_length(selector.as_str());
                match check_layout(title.as_str(), &options, indent, size) {
                    Some(error) => Err(error),
                    None => {
                        proof {
                            view.lemma_accepted_is_well_formed(Some(size));
                        }
                        Ok(Menu::unchecked(title, options, selected_index, selector))
                    },
                }
            },
        }
    }

    /// A menu of these parts, unexamined, in the default colors: white on
    /// black for the highlighted row.
    pub fn unchecked(title: String, options: Vec<String>, selected_index: usize, selector: String) -> (menu:
        Menu)
        ensures
            menu@ == MenuView::fresh(title@, texts(options@), selected_index as nat, selector@),
    {
        Menu {
            title,
            options,
            selected_index,
            selector,
            selected_foreground_color: Color::White,
            selected_background_color: Color::Black,
        }
    }

    /// Tells whether the menu can be shown: see [`MenuView::wf`].
    pub fn is_well_formed(&self) -> (b: bool)
        ensures
            b == self@.wf(),
    {
        let rows = self.options.len();
        let breaks = count_char(self.title.as_str(), '\n');
        let width = byte_length(self.selector.as_str());
        self.selected_index < rows && rows <= 65534 && breaks <= 65534 - rows && width <= 65535
    }

    /// The title.
    pub fn get_title(&self) -> (title: &String)
        ensures
            title@ == self@.title,
    {
        &self.title
    }

    /// The options.
    pub fn get_options(&self) -> (options: &Vec<String>)
        ensures
            texts(options@) == self@.options,
    {
        &self.options
    }

    /// The index of the highlighted row.
    pub fn get_selected_index(&self) -> (index: usize)
        ensures
            index == self@.selected_index,
    {
        self.selected_index
    }

    /// The selector glyph.
    pub fn get_selector(&self) -> (selector: &String)
        ensures
            selector@ == self@.selector,
    {
        &self.selector
    }

    /// The text of the option at `index`.
    pub fn format_option(&self, index: usize) -> (text: String)
        requires
            index < self@.options.len(),
        ensures
            text@ == self@.options[index as int],
    {
        self.options[index].clone()
    }

    /// The title with the line break that ends it.
    pub fn format_title(&self) -> (text: String)
        ensures
            text@ == self@.title.push('\n'),
    {
        with_line_break(self.title.as_str())
    }

    /// Appends a row drawn without highlight.
    pub(crate) fn emit_plain_row(&self, ops: &mut Vec<DrawOp>, text: String)
        requires
            byte_len(self@.selector) <= u16::MAX,
        ensures
            draws(final(ops)@) == draws(old(ops)@) + self@.plain_row(text@),
    {
        let width = byte_length(self.selector.as_str());
        emit(ops, DrawOp::MoveRight(width as u16));
        emit(ops, DrawOp::Print(text));
        assert(draws(ops@) =~= draws(old(ops)@) + self@.plain_row(text@));
    }

    /// Appends the highlight's colors and the selector.
    pub(crate) fn emit_highlight_start(&self, ops: &mut Vec<DrawOp>)
        ensures
            draws(final(ops)@) == draws(old(ops)@) + self@.highlight_start(),
    {
        emit(ops, DrawOp::SetForeground(self.selected_foreground_color));
        emit(ops, DrawOp::SetBackground(self.selected_background_color));
        emit(ops, DrawOp::Print(self.selector.clone()));
        assert(draws(ops@) =~= draws(old(ops)@) + self@.highlight_start());
    }

    /// The full repaint.
    pub fn display(&self) -> (ops: Vec<DrawOp>)
        requires
            self@.wf(),
        ensures
            draws(ops@) == self@.display_ops(),
    {
        let mut ops: Vec<DrawOp> = Vec::new();
        emit(&mut ops, DrawOp::ClearScreen);
        emit(&mut ops, DrawOp::MoveTo(0, 0));
        emit(&mut ops, DrawOp::Print(self.format_title()));
        let ghost head = draws(ops@);
        assert(head =~= seq![
            crate::draw::Draw::ClearScreen,
            crate::draw::Draw::MoveTo(0, 0),
            crate::draw::Draw::Print(self@.title.push('\n')),
        ]);
        let mut i: usize = 0;
        while i < self.options.len()
            invariant
                self@.wf(),
                i <= self.options.len(),
                self.options.len() == self@.options.len(),
                draws(ops@) == head + self@.display_rows(i as nat),
            decreases self.options.len() - i,
        {
            let text = self.format_option(i);
            let ghost before = draws(ops@);
            if i == self.selected_index {
                self.emit_highlight_start(&mut ops);
                emit(&mut ops, DrawOp::Print(text));
                emit(&mut ops, DrawOp::MoveToNextLine(1));
                emit(&mut ops, DrawOp::ResetColor);
            } else {
                self.emit_plain_row(&mut ops, text);
                emit(&mut ops, DrawOp::MoveToNextLine(1));
            }
            assert(draws(ops@) =~= before + self@.display_row(i as int));
            assert(draws(ops@) =~= head + self@.display_rows((i + 1) as nat));
            i = i + 1;
        }
        emit(&mut ops, DrawOp::MoveTo(0, self.highlighted_screen_row()));
        assert(draws(ops@) =~= self@.display_ops());
        ops
    }

    /// The screen row of the highlighted option.
    pub fn highlighted_screen_row(&self) -> (row: u16)
        requires
            self@.wf(),
        ensures
            row == self@.screen_row(self@.selected_index),
    {
        let breaks = count_char(self.title.as_str(), '\n');
        let row = self.selected_index + breaks + 1;
        row as u16
    }

    /// The incremental repaint of a move in `direction`: the row under the
    /// cursor becomes plain, with the text `current_line_out`, and the row
    /// next to it highlighted, with the text `next_line_out`.
    pub fn move_with_direction(
        &self,
        direction: Direction,
        current_line_out: String,
        next_line_out: String,
    ) -> (ops: Vec<DrawOp>)
        requires
            byte_len(self@.selector) <= u16::MAX,
        ensures
            draws(ops@) == self@.repaint_ops(direction, current_line_out@, next_line_out@),
    {
        let mut ops: Vec<DrawOp> = Vec::new();
        emit(&mut ops, DrawOp::ClearLine);
        self.emit_plain_row(&mut ops, current_line_out);
        match direction {
            Direction::Up => emit(&mut ops, DrawOp::MoveToPreviousLine(1)),
            Direction::Down => emit(&mut ops, DrawOp::MoveToNextLine(1)),
        }
        emit(&mut ops, DrawOp::ClearLine);
        self.emit_highlight_start(&mut ops);
        emit(&mut ops, DrawOp::Print(next_line_out));
        emit(&mut ops, DrawOp::MoveToColumn(1));
        emit(&mut ops, DrawOp::ResetColor);
        assert(draws(ops@) =~= self@.repaint_ops(
            direction,
            current_line_out@,
            next_line_out@,
        ));
        ops
    }

    /// Moves the highlight one row in `direction`, unless it is on the last
    /// row that way, and returns the row it left and the row it is on now,
    /// or none where it stayed.
    pub fn move_highlight(&mut self, direction: Direction) -> (rows: Option<(usize, usize)>)
        requires
            old(self)@.wf(),
        ensures
            final(self)@ == old(self)@.moved(direction),
            final(self)@.wf(),
            rows is Some == old(self)@.can_move(direction),
            rows matches Some((from, to)) ==> from == old(self)@.selected_index
                && to == final(self)@.selected_index,
    {
        let from = self.selected_index;
        match direction {
            Direction::Up => {
                if from > 0 {
                    self.selected_index = from - 1;
                    Some((from, from - 1))
                } else {
                    None
                }
            },
            Direction::Down => {
                if from < self.options.len() - 1 {
                    self.selected_index = from + 1;
                    Some((from, from + 1))
                } else {
                    None
                }
            },
        }
    }

    /// Moves the highlight one row up, unless it is on the first row, and
    /// returns the repaint of the two rows that changed.
    pub fn on_up_key(&mut self) -> (ops: Vec<DrawOp>)
        requires
            old(self)@.wf(),
        ensures
            final(self)@ == old(self)@.moved(Direction::Up),
            final(self)@.wf(),
            draws(ops@) == old(self)@.move_ops(Direction::Up),
    {
        match self.move_highlight(Direction::Up) {
            Some((from, to)) => {
                let current_line_out = self.format_option(from);
                let next_line_out = self.format_option(to);
                self.move_with_direction(Direction::Up, current_line_out, next_line_out)
            },
            None => nothing(),
        }
    }

    /// Moves the highlight one row down, unless it is on the last row, and
    /// returns the repaint of the two rows that changed.
    pub fn on_down_key(&mut self) -> (ops: Vec<DrawOp>)
        requires
            old(self)@.wf(),
        ensures
            final(self)@ == old(self)@.moved(Direction::Down),
            final(self)@.wf(),
            draws(ops@) == old(self)@.move_ops(Direction::Down),
    {
        match self.move_highlight(Direction::Down) {
            Some((from, to)) => {
                let current_line_out = self.format_option(from);
                let next_line_out = self.format_option(to);
                self.move_with_direction(Direction::Down, current_line_out, next_line_out)
            },
            None => nothing(),
        }
    }

    /// The space key: a single-select menu has nothing to check, so nothing
    /// changes and nothing is drawn.
    pub fn on_space_key(&mut self) -> (ops: Vec<DrawOp>)
        ensures
            final(self)@ == old(self)@,
            draws(ops@) == old(self)@.ops_for(Command::Toggle),
    {
        nothing()
    }

    /// The selection on confirming: the highlighted row.
    pub fn on_break(&self) -> (result: Option<usize>)
        ensures
            chosen(result) == self@.result_for(Command::Confirm),
    {
        Some(self.selected_index)
    }

    /// The operations that take the terminal over: raw input, hidden
    /// cursor.
    pub fn setup_console(&self) -> (ops: Vec<DrawOp>)
        ensures
            draws(ops@) == setup_ops(),
    {
        MenuLike::setup_console(self)
    }

    /// The operations that give the terminal back: normal input, a clear
    /// screen, the cursor at its top and visible.
    pub fn restore_console(&self) -> (ops: Vec<DrawOp>)
        ensures
            draws(ops@) == restore_ops(),
    {
        MenuLike::restore_console(self)
    }

    /// What starting a session draws: the terminal is taken over and the
    /// menu painted in full.
    pub fn start(&self) -> (ops: Vec<DrawOp>)
        requires
            self@.wf(),
        ensures
            draws(ops@) == start_ops(self@),
    {
        MenuLike::start(self)
    }

    /// Carries out `command` in a running session.
    pub fn on_command(&mut self, command: Command) -> (outcome: Outcome<usize>)
        requires
            old(self)@.wf(),
        ensures
            final(self)@ == old(self)@.after(command),
            final(self)@.wf(),
            draws(outcome.ops@) == old(self)@.ops_for(command),
            outcome.phase == command.phase_after(),
            chosen(outcome.result) == old(self)@.result_for(command),
    {
        MenuLike::on_command(self, command)
    }

    /// Handles one key press of a running session.
    pub fn on_key(&mut self, key: KeyPress) -> (outcome: Outcome<usize>)
        requires
            old(self)@.wf(),
        ensures
            final(self)@ == old(self)@.after(key.command_spec()),
            final(self)@.wf(),
            draws(outcome.ops@) == old(self)@.ops_for(key.command_spec()),
            outcome.phase == key.command_spec().phase_after(),
            chosen(outcome.result) == old(self)@.result_for(key.command_spec()),
    {
        MenuLike::on_key(self, key)
    }

    /// Runs a whole session on the key presses `keys`: takes the terminal
    /// over, paints the menu, and handles the keys in order up to the first
    /// that ends the session. Where none of them does, the session is left
    /// running, to be continued with [`Menu::on_key`].
    pub fn run(&mut self, keys: &Vec<KeyPress>) -> (outcome: Outcome<usize>)
        requires
            old(self)@.wf(),
        ensures
            final(self)@ == session(old(self)@, keys@).model,
            final(self)@.wf(),
            draws(outcome.ops@) == session(old(self)@, keys@).ops,
            outcome.phase == session(old(self)@, keys@).phase,
            chosen(outcome.result) == session(old(self)@, keys@).result,
    {
        MenuLike::run(self, keys)
    }

    /// Replaces the title.
    pub fn title(&mut self, title: String)
        ensures
            final(self)@ == (MenuView { title: title@, ..old(self)@ }),
    {
        self.title = title;
    }

    /// Replaces the options. The highlight stays where it was, so a shorter
    /// list can leave it on no row.
    pub fn options(&mut self, options: Vec<String>)
        ensures
            final(self)@ == (MenuView { options: texts(options@), ..old(self)@ }),
    {
        self.options = options;
    }

    /// Puts the highlight on the row at `selected_index`, or on the first
    /// row where the list has no such row.
    pub fn selected_index(&mut self, selected_index: usize)
        ensures
            final(self)@ == (MenuView {
                selected_index: if selected_index < old(self)@.options.len() {
                    selected_index as nat
                } else {
                    0
                },
                ..old(self)@
            }),
    {
        if selected_index >= self.options.len() {
            self.selected_index = 0;
        } else {
            self.selected_index = selected_index;
        }
    }

    /// Replaces the selector glyph.
    pub fn selector(&mut self, selector: String)
        ensures
            final(self)@ == (MenuView { selector: selector@, ..old(self)@ }),
    {
        self.selector = selector;
    }

    /// Sets the color of the highlighted row's text.
    pub fn selected_foreground_color(&mut self, color: Color)
        ensures
            final(self)@ == (MenuView { selected_foreground_color: color, ..old(self)@ }),
    {
        self.selected_foreground_color = color;
    }

    /// Sets the color behind the highlighted row's text.
    pub fn selected_background_color(&mut self, color: Color)
        ensures
            final(self)@ == (MenuView { selected_background_color: color, ..old(self)@ }),
    {
        self.selected_background_color = color;
    }

    /// Sets the color of the highlighted row's text.
    pub fn set_selected_foreground_color(&mut self, color: Color)
        ensures
            final(self)@ == (MenuView { selected_foreground_color: color, ..old(self)@ }),
    {
        self.selected_foreground_color(color);
    }

    /// Sets the color behind the highlighted row's text.
    pub fn set_selected_background_color(&mut self, color: Color)
        ensures
            final(self)@ == (MenuView { selected_background_color: color, ..old(self)@ }),
    {
        self.selected_background_color(color);
    }
}

impl MenuLike for Menu {
    type Model = MenuView;

    type Selection = usize;

    open spec fn model(&self) -> MenuView {
        self@
    }

    open spec fn ready(&self) -> bool {
        self@.wf()
    }

    open spec fn base(&self) -> MenuView {
        self@
    }

    fn get_menu(&self) -> (menu: &Menu) {
        self
    }

    fn is_well_formed(&self) -> (b: bool) {
        Menu::is_well_formed(self)
    }

    fn display(&self) -> (ops: Vec<DrawOp>) {
        Menu::display(self)
    }

    fn on_up_key(&mut self) -> (ops: Vec<DrawOp>) {
        Menu::on_up_key(self)
    }

    fn on_down_key(&mut self) -> (ops: Vec<DrawOp>) {
        Menu::on_down_key(self)
    }

    fn on_space_key(&mut self) -> (ops: Vec<DrawOp>) {
        Menu::on_space_key(self)
    }

    fn on_break(&self) -> (result: Option<usize>) {
        Menu::on_break(self)
    }
}

impl Default for Menu {
    /// A menu of three options with the first highlighted, in the terminal's
    /// own colors.
    fn default() -> (menu: Menu)
        ensures
            menu@ == MenuView::standard(),
    {
        let mut options: Vec<String> = Vec::new();
        options.push(String::from_str("Option 1"));
        options.push(String::from_str("Option 2"));
        options.push(String::from_str("Option 3"));
        assert(texts(options@) =~= seq!["Option 1"@, "Option 2"@, "Option 3"@]);
        Menu {
            title: String::from_str("Single Select Menu"),
            options,
            selected_index: 0,
            selector: String::from_str("=> "),
            selected_foreground_color: Color::Reset,
            selected_background_color: Color::Reset,
        }
    }
}

} // verus!
