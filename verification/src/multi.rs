//! The multi-select menu.

use std::collections::HashSet;
use vstd::prelude::*;
use vstd::std_specs::hash::group_hash_axioms;
use crate::draw::{draws, emit, nothing, DrawOp};
use crate::error::ValidationError;
use crate::input::{Command, Direction, KeyPress};
use crate::menu::{refusal, Menu};
use crate::menu_like::{chosen, MenuLike, Outcome};
use crate::model::MenuView;
use crate::multi_model::MultiMenuView;
use crate::session::{restore_ops, session, setup_ops, start_ops, SessionModel};
use crate::style::Color;
use crate::terminal::{terminal_size, Size};
use crate::text::{byte_len, byte_length, texts};

verus! {

broadcast use group_hash_axioms;

/// A titled list of options, one of which is highlighted and any number of
/// which are checked.
pub struct MultiMenu {
    menu: Menu,
    selected_options: HashSet<usize>,
    selected_selector: String,
    selected_option_foreground_color: Color,
    selected_option_background_color: Color,
    selected_selected_option_foreground_color: Color,
    selected_selected_option_background_color: Color,
}

impl View for MultiMenu {
    type V = MultiMenuView;

    closed spec fn view(&self) -> MultiMenuView {
        MultiMenuView {
            menu: self.menu@,
            selected_options: self.selected_options@,
            selected_selector: self.selected_selector@,
            selected_option_foreground_color: self.selected_option_foreground_color,
            selected_option_background_color: self.selected_option_background_color,
            selected_selected_option_foreground_color: self.selected_selected_option_foreground_color,
            selected_selected_option_background_color: self.selected_selected_option_background_color,
        }
    }
}

/// Looks for a member of `rows` that is no index below `count`, and returns
/// one where there is any.
pub fn find_out_of_range(rows: &HashSet<usize>, count: usize) -> (found: Option<usize>)
    ensures
        found is None <==> forall|index: usize| #[trigger] rows@.contains(index) ==> index < count,
        found matches Some(index) ==> rows@.contains(index) && index >= count,
{
    for row in it: rows.iter()
        invariant
            it.seq().unref().to_set() == rows@,
            forall|j: int| 0 <= j < it.index() ==> #[trigger] it.seq().unref()[j] < count,
    {
        assert(it.seq().unref()[it.index() as int] == *row);
        assert(it.seq().unref().contains(*row));
        assert(it.seq().unref().to_set().contains(*row));
        assert(rows@.contains(*row));
        if *row >= count {
            return Some(*row);
        }
    }
    None
}

/// A copy of `rows`.
pub fn copy_set(rows: &HashSet<usize>) -> (copy: HashSet<usize>)
    ensures
        copy@ == rows@,
{
    let mut copy: HashSet<usize> = HashSet::new();
    for row in it: rows.iter()
        invariant
            it.seq().unref().to_set() == rows@,
            forall|index: usize|
                copy@.contains(index) <==> exists|j: int|
                    0 <= j < it.index() && #[trigger] it.seq().unref()[j] == index,
    {
        assert(it.seq().unref()[it.index() as int] == *row);
        copy.insert(*row);
    }
    assert(copy@ =~= rows@);
    copy
}

/// The members of `rows` that are indices below `count`.
pub fn keep_below(rows: &HashSet<usize>, count: usize) -> (kept: HashSet<usize>)
    ensures
        kept@ == rows@.filter(|index: usize| index < count),
{
    let mut kept: HashSet<usize> = HashSet::new();
    for row in it: rows.iter()
        invariant
            it.seq().unref().to_set() == rows@,
            forall|index: usize|
                kept@.contains(index) <==> index < count && exists|j: int|
                    0 <= j < it.index() && #[trigger] it.seq().unref()[j] == index,
    {
        assert(it.seq().unref()[it.index() as int] == *row);
        if *row < count {
            kept.insert(*row);
        }
    }
    assert(kept@ =~= rows@.filter(|index: usize| index < count));
    kept
}

impl MultiMenu {
    /// A menu of these parts, examined unless `ignore_warnings` is set. The
    /// examination asks for the size of the terminal behind standard output
    /// and goes on as [`MultiMenu::validated`] does with the answer, so what
    /// is returned is what `validated` returns for some size or for none.
    pub fn new(
        title: String,
        options: Vec<String>,
        selected_index: usize,
        selector: String,
        selected_options: HashSet<usize>,
        selected_selector: String,
        ignore_warnings: bool,
    ) -> (made: Result<MultiMenu, ValidationError>)
        ensures
            made matches Ok(menu) ==> menu@ == MultiMenuView::fresh(
                title@,
                texts(options@),
                selected_index as nat,
                selector@,
                selected_options@,
                selected_selector@,
            ),
            ignore_warnings ==> made is Ok,
            !ignore_warnings ==> exists|size: Option<Size>| #[trigger]
                MultiMenuView::fresh(
                    title@,
                    texts(options@),
                    selected_index as nat,
                    selector@,
                    selected_options@,
                    selected_selector@,
                ).refused_with(size, refusal(made)),
            !ignore_warnings && made is Ok ==> MultiMenuView::fresh(
                title@,
                texts(options@),
                selected_index as nat,
                selector@,
                selected_options@,
                selected_selector@,
            ).wf(),
            !ignore_warnings && selected_index >= options.len() ==> made is Err,
            !ignore_warnings && !MultiMenuView::fresh(
                title@,
                texts(options@),
                selected_index as nat,
                selector@,
                selected_options@,
                selected_selector@,
            ).checked_in_range() ==> made is Err,
            !ignore_warnings && byte_len(selected_selector@) != byte_len(selector@) ==> refusal(made)
                == Some(ValidationError::SelectorLengthMismatch),
    {
        if ignore_warnings {
            Ok(
                MultiMenu::unchecked(
                    title,
                    options,
                    selected_index,
                    selector,
                    selected_options,
                    selected_selector,
                ),
            )
        } else {
            let size = terminal_size();
            let made = MultiMenu::validated(
                title,
                options,
                selected_index,
                selector,
                selected_options,
                selected_selector,
                size,
            );
            made
        }
    }

    /// A menu of these parts, examined for a terminal whose size was found
    /// to be `size`, or not found: the menu where nothing is held against
    /// it, and else an error that [`MultiMenuView::refused_with`] admits.
    pub fn validated(
        title: String,
        options: Vec<String>,
        selected_index: usize,
        selector: String,
        selected_options: HashSet<usize>,
        selected_selector: String,
        size: Option<Size>,
    ) -> (made: Result<MultiMenu, ValidationError>)
        ensures
            made matches Ok(menu) ==> menu@ == MultiMenuView::fresh(
                title@,
                texts(options@),
                selected_index as nat,
                selector@,
                selected_options@,
                selected_selector@,
            ) && menu@.wf(),
            MultiMenuView::fresh(
                title@,
                texts(options@),
                selected_index as nat,
                selector@,
                selected_options@,
                selected_selector@,
            ).refused_with(size, refusal(made)),
    {
        if byte_length(selected_selector.as_str()) != byte_length(selector.as_str()) {
            return Err(ValidationError::SelectorLengthMismatch);
        }
        if selected_index >= options.len() {
            return Err(ValidationError::SelectedIndexOutOfRange(selected_index));
        }
        match find_out_of_range(&selected_options, options.len()) {
            Some(index) => {
                return Err(ValidationError::CheckedIndexOutOfRange(index));
            },
            None => {},
        }
        match Menu::validated(title, options, selected_index, selector, size) {
            Err(error) => Err(error),
            Ok(menu) => Ok(
                MultiMenu {
                    menu,
                    selected_options,
                    selected_selector,
                    selected_option_foreground_color: Color::White,
                    selected_option_background_color: Color::Black,
                    selected_selected_option_foreground_color: Color::Black,
                    selected_selected_option_background_color: Color::Black,
                },
            ),
        }
    }

    /// A menu of these parts, unexamined, in the default colors.
    pub fn unchecked(
        title: String,
        options: Vec<String>,
        selected_index: usize,
        selector: String,
        selected_options: HashSet<usize>,
        selected_selector: String,
    ) -> (menu: MultiMenu)
        ensures
            menu@ == MultiMenuView::fresh(
                title@,
                texts(options@),
                selected_index as nat,
                selector@,
                selected_options@,
                selected_selector@,
            ),
    {
        MultiMenu {
            menu: Menu::unchecked(title, options, selected_index, selector),
            selected_options,
            selected_selector,
            selected_option_foreground_color: Color::White,
            selected_option_background_color: Color::Black,
            selected_selected_option_foreground_color: Color::Black,
            selected_selected_option_background_color: Color::Black,
        }
    }

    /// Tells whether the menu can be shown: see [`MultiMenuView::wf`].
    pub fn is_well_formed(&self) -> (b: bool)
        ensures
            b == self@.wf(),
    {
        let count = self.menu.get_options().len();
        assert(count == self@.menu.options.len());
        let stray = find_out_of_range(&self.selected_options, count);
        assert(self@.selected_options == self.selected_options@);
        assert(stray is None == self@.checked_in_range());
        self.menu.is_well_formed() && stray.is_none()
    }

    /// The single-select menu that this menu is built on.
    pub fn get_menu(&self) -> (menu: &Menu)
        ensures
            menu@ == self@.menu,
    {
        &self.menu
    }

    /// The title.
    pub fn get_title(&self) -> (title: &String)
        ensures
            title@ == self@.menu.title,
    {
        self.menu.get_title()
    }

    /// The options.
    pub fn get_options(&self) -> (options: &Vec<String>)
        ensures
            texts(options@) == self@.menu.options,
    {
        self.menu.get_options()
    }

    /// The index of the highlighted row.
    pub fn get_selected_index(&self) -> (index: usize)
        ensures
            index == self@.menu.selected_index,
    {
        self.menu.get_selected_index()
    }

    /// The checked rows.
    pub fn get_selected_options(&self) -> (rows: &HashSet<usize>)
        ensures
            rows@ == self@.selected_options,
    {
        &self.selected_options
    }

    /// Tells whether the row at `index` is checked.
    pub fn is_checked(&self, index: usize) -> (checked: bool)
        ensures
            checked == self@.is_checked(index as int),
    {
        self.selected_options.contains(&index)
    }

    /// Appends the highlighted row's colors, which depend on whether it is
    /// checked, and the selector.
    fn emit_highlight_start(&self, ops: &mut Vec<DrawOp>, checked: bool)
        ensures
            draws(final(ops)@) == draws(old(ops)@) + self@.highlight_start(checked),
    {
        if checked {
            emit(ops, DrawOp::SetForeground(self.selected_selected_option_foreground_color));
            emit(ops, DrawOp::SetBackground(self.selected_selected_option_background_color));
            emit(ops, DrawOp::Print(self.menu.get_selector().clone()));
            assert(draws(ops@) =~= draws(old(ops)@) + self@.highlight_start(checked));
        } else {
            self.menu.emit_highlight_start(ops);
        }
    }

    /// Appends a checked row's colors and its glyph.
    fn emit_checked_start(&self, ops: &mut Vec<DrawOp>)
        ensures
            draws(final(ops)@) == draws(old(ops)@) + self@.checked_start(),
    {
        emit(ops, DrawOp::SetForeground(self.selected_option_foreground_color));
        emit(ops, DrawOp::SetBackground(self.selected_option_background_color));
        emit(ops, DrawOp::Print(self.selected_selector.clone()));
        assert(draws(ops@) =~= draws(old(ops)@) + self@.checked_start());
    }

    /// The full repaint.
    pub fn display(&self) -> (ops: Vec<DrawOp>)
        requires
            self@.wf(),
        ensures
            draws(ops@) == self@.display_ops(),
    {
        let mut ops: Vec<DrawOp> = Vec::new();
        emit(&mut ops, DrawOp::ClearScreen);
        emit(&mut ops, DrawOp::MoveTo(0, 0));
        emit(&mut ops, DrawOp::Print(self.menu.format_title()));
        let ghost head = draws(ops@);
        assert(head =~= seq![
            crate::draw::Draw::ClearScreen,
            crate::draw::Draw::MoveTo(0, 0),
            crate::draw::Draw::Print(self@.menu.title.push('\n')),
        ]);
        let count = self.menu.get_options().len();
        assert(count == self@.menu.options.len());
        let highlighted = self.menu.get_selected_index();
        let mut i: usize = 0;
        while i < count
            invariant
                self@.wf(),
                i <= count,
                count == self@.menu.options.len(),
                highlighted == self@.menu.selected_index,
                draws(ops@) == head + self@.display_rows(i as nat),
            decreases count - i,
        {
            let text = self.menu.format_option(i);
            let checked = self.is_checked(i);
            let ghost before = draws(ops@);
            if i == highlighted {
                self.emit_highlight_start(&mut ops, checked);
                emit(&mut ops, DrawOp::Print(text));
                emit(&mut ops, DrawOp::MoveToNextLine(1));
                emit(&mut ops, DrawOp::ResetColor);
            } else if checked {
                self.emit_checked_start(&mut ops);
                emit(&mut ops, DrawOp::Print(text));
                emit(&mut ops, DrawOp::MoveToNextLine(1));
                emit(&mut ops, DrawOp::ResetColor);
            } else {
                self.menu.emit_plain_row(&mut ops, text);
                emit(&mut ops, DrawOp::MoveToNextLine(1));
            }
            assert(draws(ops@) =~= before + self@.display_row(i as int));
            assert(draws(ops@) =~= head + self@.display_rows((i + 1) as nat));
            i = i + 1;
        }
        emit(&mut ops, DrawOp::MoveTo(0, self.menu.highlighted_screen_row()));
        assert(draws(ops@) =~= self@.display_ops());
        ops
    }

    /// The incremental repaint after the highlight has moved in `direction`:
    /// the row that it left, which the cursor is still on, is redrawn
    /// without highlight, with the text `current_line_out`, and the row that
    /// it is on now is redrawn highlighted, with the text `next_line_out`.
    /// The row that it left is the one before the highlighted row after a
    /// move down, and the one after it after a move up.
    pub fn move_with_direction(
        &self,
        direction: Direction,
        current_line_out: String,
        next_line_out: String,
    ) -> (ops: Vec<DrawOp>)
        requires
            byte_len(self@.menu.selector) <= u16::MAX,
            direction == Direction::Down ==> self@.menu.selected_index > 0,
            direction == Direction::Up ==> self@.menu.selected_index < usize::MAX,
        ensures
            draws(ops@) == self@.repaint_ops(
                direction,
                self@.is_checked(self@.row_left(direction)),
                self@.is_checked(self@.menu.selected_index as int),
                current_line_out@,
                next_line_out@,
            ),
    {
        let highlighted = self.menu.get_selected_index();
        let left = match direction {
            Direction::Up => highlighted + 1,
            Direction::Down => highlighted - 1,
        };
        let mut ops: Vec<DrawOp> = Vec::new();
        emit(&mut ops, DrawOp::ClearLine);
        if self.is_checked(left) {
            self.emit_checked_start(&mut ops);
            emit(&mut ops, DrawOp::Print(current_line_out));
            emit(&mut ops, DrawOp::ResetColor);
        } else {
            self.menu.emit_plain_row(&mut ops, current_line_out);
        }
        match direction {
            Direction::Up => emit(&mut ops, DrawOp::MoveToPreviousLine(1)),
            Direction::Down => emit(&mut ops, DrawOp::MoveToNextLine(1)),
        }
        emit(&mut ops, DrawOp::ClearLine);
        self.emit_highlight_start(&mut ops, self.is_checked(highlighted));
        emit(&mut ops, DrawOp::Print(next_line_out));
        emit(&mut ops, DrawOp::ResetColor);
        emit(&mut ops, DrawOp::MoveToColumn(1));
        assert(draws(ops@) =~= self@.repaint_ops(
            direction,
            self@.is_checked(left as int),
            self@.is_checked(highlighted as int),
            current_line_out@,
            next_line_out@,
        ));
        ops
    }

    /// Moves the highlight one row in `direction`, unless it is on the last
    /// row that way, and returns the repaint of the two rows that changed.
    fn on_arrow_key(&mut self, direction: Direction) -> (ops: Vec<DrawOp>)
        requires
            old(self)@.wf(),
        ensures
            final(self)@ == old(self)@.moved(direction),
            final(self)@.wf(),
            draws(ops@) == old(self)@.move_ops(direction),
    {
        match self.menu.move_highlight(direction) {
            Some((from, to)) => {
                let current_line_out = self.menu.format_option(from);
                let next_line_out = self.menu.format_option(to);
                self.move_with_direction(direction, current_line_out, next_line_out)
            },
            None => nothing(),
        }
    }

    /// Moves the highlight one row up, unless it is on the first row, and
    /// returns the repaint of the two rows that changed.
    pub fn on_up_key(&mut self) -> (ops: Vec<DrawOp>)
        requires
            old(self)@.wf(),
        ensures
            final(self)@ == old(self)@.moved(Direction::Up),
            final(self)@.wf(),
            draws(ops@) == old(self)@.move_ops(Direction::Up),
    {
        self.on_arrow_key(Direction::Up)
    }

    /// Moves the highlight one row down, unless it is on the last row, and
    /// returns the repaint of the two rows that changed.
    pub fn on_down_key(&mut self) -> (ops: Vec<DrawOp>)
        requires
            old(self)@.wf(),
        ensures
            final(self)@ == old(self)@.moved(Direction::Down),
            final(self)@.wf(),
            draws(ops@) == old(self)@.move_ops(Direction::Down),
    {
        self.on_arrow_key(Direction::Down)
    }

    /// Checks the highlighted row if it is unchecked and unchecks it if it
    /// is checked, and tells whether it is checked now.
    pub fn toggle_checked(&mut self) -> (checked: bool)
        requires
            old(self)@.wf(),
        ensures
            final(self)@ == old(self)@.toggled(),
            final(self)@.wf(),
            checked == !old(self)@.is_checked(old(self)@.menu.selected_index as int),
            checked == final(self)@.is_checked(old(self)@.menu.selected_index as int),
    {
        let highlighted = self.menu.get_selected_index();
        if self.selected_options.contains(&highlighted) {
            self.selected_options.remove(&highlighted);
            false
        } else {
            self.selected_options.insert(highlighted);
            true
        }
    }

    /// The space key: checks or unchecks the highlighted row and returns the
    /// repaint of that row.
    pub fn on_space_key(&mut self) -> (ops: Vec<DrawOp>)
        requires
            old(self)@.wf(),
        ensures
            final(self)@ == old(self)@.toggled(),
            final(self)@.wf(),
            draws(ops@) == old(self)@.toggle_ops(),
    {
        let text = self.menu.format_option(self.menu.get_selected_index());
        let checked = self.toggle_checked();
        let mut ops: Vec<DrawOp> = Vec::new();
        emit(&mut ops, DrawOp::ClearLine);
        self.emit_highlight_start(&mut ops, checked);
        emit(&mut ops, DrawOp::Print(text));
        emit(&mut ops, DrawOp::ResetColor);
        emit(&mut ops, DrawOp::MoveToColumn(1));
        assert(draws(ops@) =~= old(self)@.toggle_ops());
        ops
    }

    /// The selection on confirming: a copy of the checked rows, or none
    /// where no row is checked.
    pub fn on_break(&self) -> (result: Option<HashSet<usize>>)
        ensures
            chosen(result) == self@.confirmed(),
    {
        if self.selected_options.is_empty() {
            None
        } else {
            Some(copy_set(&self.selected_options))
        }
    }

    /// The operations that take the terminal over: raw input, hidden
    /// cursor.
    pub fn setup_console(&self) -> (ops: Vec<DrawOp>)
        ensures
            draws(ops@) == setup_ops(),
    {
        MenuLike::setup_console(self)
    }

    /// The operations that give the terminal back: normal input, a clear
    /// screen, the cursor at its top and visible.
    pub fn restore_console(&self) -> (ops: Vec<DrawOp>)
        ensures
            draws(ops@) == restore_ops(),
    {
        MenuLike::restore_console(self)
    }

    /// What starting a session draws: the terminal is taken over and the
    /// menu painted in full.
    pub fn start(&self) -> (ops: Vec<DrawOp>)
        requires
            self@.wf(),
        ensures
            draws(ops@) == start_ops(self@),
    {
        MenuLike::start(self)
    }

    /// Carries out `command` in a running session.
    pub fn on_command(&mut self, command: Command) -> (outcome: Outcome<HashSet<usize>>)
        requires
            old(self)@.wf(),
        ensures
            final(self)@ == old(self)@.after(command),
            final(self)@.wf(),
            draws(outcome.ops@) == old(self)@.ops_for(command),
            outcome.phase == command.phase_after(),
            chosen(outcome.result) == old(self)@.result_for(command),
    {
        MenuLike::on_command(self, command)
    }

    /// Handles one key press of a running session.
    pub fn on_key(&mut self, key: KeyPress) -> (outcome: Outcome<HashSet<usize>>)
        requires
            old(self)@.wf(),
        ensures
            final(self)@ == old(self)@.after(key.command_spec()),
            final(self)@.wf(),
            draws(outcome.ops@) == old(self)@.ops_for(key.command_spec()),
            outcome.phase == key.command_spec().phase_after(),
            chosen(outcome.result) == old(self)@.result_for(key.command_spec()),
    {
        MenuLike::on_key(self, key)
    }

    /// Runs a whole session on the key presses `keys`: takes the terminal
    /// over, paints the menu, and handles the keys in order up to the first
    /// that ends the session. Where none of them does, the session is left
    /// running, to be continued with [`MultiMenu::on_key`].
    pub fn run(&mut self, keys: &Vec<KeyPress>) -> (outcome: Outcome<HashSet<usize>>)
        requires
            old(self)@.wf(),
        ensures
            final(self)@ == session(old(self)@, keys@).model,
            final(self)@.wf(),
            draws(outcome.ops@) == session(old(self)@, keys@).ops,
            outcome.phase == session(old(self)@, keys@).phase,
            chosen(outcome.result) == session(old(self)@, keys@).result,
    {
        MenuLike::run(self, keys)
    }

    /// Replaces the title.
    pub fn title(&mut self, title: String)
        ensures
            final(self)@ == (MultiMenuView {
                menu: MenuView { title: title@, ..old(self)@.menu },
                ..old(self)@
            }),
    {
        self.menu.title(title);
    }

    /// Replaces the options. The highlight and the checked rows stay as they
    /// were, so a shorter list can leave them on no row.
    pub fn options(&mut self, options: Vec<String>)
        ensures
            final(self)@ == (MultiMenuView {
                menu: MenuView { options: texts(options@), ..old(self)@.menu },
                ..old(self)@
            }),
    {
        self.menu.options(options);
    }

    /// Replaces the checked rows by those of `selected_options` that are
    /// rows of the list.
    pub fn selected_options(&mut self, selected_options: HashSet<usize>)
        ensures
            final(self)@ == (MultiMenuView {
                selected_options: selected_options@.filter(
                    |index: usize| index < old(self)@.menu.options.len(),
                ),
                ..old(self)@
            }),
            final(self)@.checked_in_range(),
    {
        let count = self.menu.get_options().len();
        assert(count == self@.menu.options.len());
        self.selected_options = keep_below(&selected_options, count);
        assert(self@.selected_options =~= selected_options@.filter(
            |index: usize| index < old(self)@.menu.options.len(),
        ));
    }

    /// Puts the highlight on the row at `selected_index`, or on the first
    /// row where the list has no such row.
    pub fn selected_index(&mut self, selected_index: usize)
        ensures
            final(self)@ == (MultiMenuView {
                menu: MenuView {
                    selected_index: if selected_index < old(self)@.menu.options.len() {
                        selected_index as nat
                    } else {
                        0
                    },
                    ..old(self)@.menu
                },
                ..old(self)@
            }),
    {
        self.menu.selected_index(selected_index);
    }

    /// Replaces the glyph of the highlighted row.
    pub fn selector(&mut self, selector: String)
        ensures
            final(self)@ == (MultiMenuView {
                menu: MenuView { selector: selector@, ..old(self)@.menu },
                ..old(self)@
            }),
    {
        self.menu.selector(selector);
    }

    /// Replaces the glyph of checked rows that are not highlighted. It has
    /// to be as long as the glyph of the highlighted row for the rows to
    /// line up; this is examined at construction only.
    pub fn selected_selector(&mut self, selected_selector: String)
        ensures
            final(self)@ == (MultiMenuView { selected_selector: selected_selector@, ..old(self)@ }),
    {
        self.selected_selector = selected_selector;
    }

    /// Sets the text color of the highlighted row where it is not checked.
    pub fn selected_foreground_color(&mut self, color: Color)
        ensures
            final(self)@ == (MultiMenuView {
                menu: MenuView { selected_foreground_color: color, ..old(self)@.menu },
                ..old(self)@
            }),
    {
        self.menu.selected_foreground_color(color);
    }

    /// Sets the color behind the highlighted row where it is not checked.
    pub fn selected_background_color(&mut self, color: Color)
        ensures
            final(self)@ == (MultiMenuView {
                menu: MenuView { selected_background_color: color, ..old(self)@.menu },
                ..old(self)@
            }),
    {
        self.menu.selected_background_color(color);
    }

    /// Sets the text color of checked rows that are not highlighted.
    pub fn selected_option_foreground_color(&mut self, color: Color)
        ensures
            final(self)@ == (MultiMenuView {
                selected_option_foreground_color: color,
                ..old(self)@
            }),
    {
        self.selected_option_foreground_color = color;
    }

    /// Sets the color behind checked rows that are not highlighted.
    pub fn selected_option_background_color(&mut self, color: Color)
        ensures
            final(self)@ == (MultiMenuView {
                selected_option_background_color: color,
                ..old(self)@
            }),
    {
        self.selected_option_background_color = color;
    }

    /// Sets the text color of the highlighted row where it is checked.
    pub fn selected_selected_option_foreground_color(&mut self, color: Color)
        ensures
            final(self)@ == (MultiMenuView {
                selected_selected_option_foreground_color: color,
                ..old(self)@
            }),
    {
        self.selected_selected_option_foreground_color = color;
    }

    /// Sets the color behind the highlighted row where it is checked.
    pub fn selected_selected_option_background_color(&mut self, color: Color)
        ensures
            final(self)@ == (MultiMenuView {
                selected_selected_option_background_color: color,
                ..old(self)@
            }),
    {
        self.selected_selected_option_background_color = color;
    }

    /// Sets the text color of the highlighted row where it is not checked.
    pub fn set_selected_foreground_color(&mut self, color: Color)
        ensures
            final(self)@ == (MultiMenuView {
                menu: MenuView { selected_foreground_color: color, ..old(self)@.menu },
                ..old(self)@
            }),
    {
        self.selected_foreground_color(color);
    }

    /// Sets the color behind the highlighted row where it is not checked.
    pub fn set_selected_background_color(&mut self, color: Color)
        ensures
            final(self)@ == (MultiMenuView {
                menu: MenuView { selected_background_color: color, ..old(self)@.menu },
                ..old(self)@
            }),
    {
        self.selected_background_color(color);
    }

    /// Sets the text color of checked rows that are not highlighted.
    pub fn set_selected_option_foreground_color(&mut self, color: Color)
        ensures
            final(self)@ == (MultiMenuView {
                selected_option_foreground_color: color,
                ..old(self)@
            }),
    {
        self.selected_option_foreground_color(color);
    }

    /// Sets the color behind checked rows that are not highlighted.
    pub fn set_selected_option_background_color(&mut self, color: Color)
        ensures
            final(self)@ == (MultiMenuView {
                selected_option_background_color: color,
                ..old(self)@
            }),
    {
        self.selected_option_background_color(color);
    }

    /// Sets the text color of the highlighted row where it is checked.
    pub fn set_selected_selected_option_foreground_color(&mut self, color: Color)
        ensures
            final(self)@ == (MultiMenuView {
                selected_selected_option_foreground_color: color,
                ..old(self)@
            }),
    {
        self.selected_selected_option_foreground_color(color);
    }

    /// Sets the color behind the highlighted row where it is checked.
    pub fn set_selected_selected_option_background_color(&mut self, color: Color)
        ensures
            final(self)@ == (MultiMenuView {
                selected_selected_option_background_color: color,
                ..old(self)@
            }),
    {
        self.selected_selected_option_background_color(color);
    }
}

impl MenuLike for MultiMenu {
    type Model = MultiMenuView;

    type Selection = HashSet<usize>;

    open spec fn model(&self) -> MultiMenuView {
        self@
    }

    open spec fn ready(&self) -> bool {
        self@.wf()
    }

    open spec fn base(&self) -> MenuView {
        self@.menu
    }

    fn get_menu(&self) -> (menu: &Menu) {
        MultiMenu::get_menu(self)
    }

    fn is_well_formed(&self) -> (b: bool) {
        MultiMenu::is_well_formed(self)
    }

    fn display(&self) -> (ops: Vec<DrawOp>) {
        MultiMenu::display(self)
    }

    fn on_up_key(&mut self) -> (ops: Vec<DrawOp>) {
        MultiMenu::on_up_key(self)
    }

    fn on_down_key(&mut self) -> (ops: Vec<DrawOp>) {
        MultiMenu::on_down_key(self)
    }

    fn on_space_key(&mut self) -> (ops: Vec<DrawOp>) {
        MultiMenu::on_space_key(self)
    }

    fn on_break(&self) -> (result: Option<HashSet<usize>>) {
        MultiMenu::on_break(self)
    }
}

impl Default for MultiMenu {
    /// A menu of three options with the first highlighted and none checked,
    /// in the terminal's own colors.
    fn default() -> (menu: MultiMenu)
        ensures
            menu@ == MultiMenuView::standard(),
    {
        let mut menu = Menu::default();
        menu.title(String::from_str("Multi Select Menu"));
        MultiMenu {
            menu,
            selected_options: HashSet::new(),
            selected_selector: String::from_str("-> "),
            selected_option_foreground_color: Color::Reset,
            selected_option_background_color: Color::Reset,
            selected_selected_option_foreground_color: Color::Reset,
            selected_selected_option_background_color: Color::Reset,
        }
    }
}

} // verus!
