//! What the two kinds of menu have in common, and the session that is
//! driven through it.

use vstd::prelude::*;
use crate::draw::{draws, emit, emit_all, nothing, Draw, DrawOp};
use crate::input::{Command, KeyPress, Phase};
use crate::menu::Menu;
use crate::model::MenuView;
use crate::session::{restore_ops, run, session, setup_ops, start_ops, SessionModel};
use crate::text::texts;

verus! {

/// What a session has come to: the draw operations to carry out, where the
/// session stands, and the selection it was left with, if any.
pub struct Outcome<R> {
    pub ops: Vec<DrawOp>,
    pub phase: Phase,
    pub result: Option<R>,
}

/// The operations that take the terminal over.
pub fn setup_console() -> (ops: Vec<DrawOp>)
    ensures
        draws(ops@) == setup_ops(),
{
    let mut ops: Vec<DrawOp> = Vec::new();
    emit(&mut ops, DrawOp::EnableRawMode);
    emit(&mut ops, DrawOp::HideCursor);
    assert(draws(ops@) =~= setup_ops());
    ops
}

/// The operations that give the terminal back.
pub fn restore_console() -> (ops: Vec<DrawOp>)
    ensures
        draws(ops@) == restore_ops(),
{
    let mut ops: Vec<DrawOp> = Vec::new();
    emit(&mut ops, DrawOp::DisableRawMode);
    emit(&mut ops, DrawOp::ClearScreen);
    emit(&mut ops, DrawOp::MoveTo(0, 0));
    emit(&mut ops, DrawOp::ShowCursor);
    assert(draws(ops@) =~= restore_ops());
    ops
}

/// The mathematical value of what a session was left with.
pub open spec fn chosen<S: View>(result: Option<S>) -> Option<S::V> {
    match result {
        Some(selection) => Some(selection@),
        None => None,
    }
}

/// A menu that a session can be run on. A kind of menu says what its state
/// is, how it paints itself, and what each of the four keys that act on a
/// menu does to it; the session is the same for every kind.
pub trait MenuLike: Sized {
    /// The menu's state as a mathematical value.
    type Model: SessionModel;

    /// What a confirmed selection is handed out as.
    type Selection: View<V = <Self::Model as SessionModel>::Choice>;

    /// The menu's state.
    spec fn model(&self) -> Self::Model;

    /// Tells whether the menu can be shown.
    spec fn ready(&self) -> bool;

    /// The single-select menu that every kind of menu is built on: title,
    /// options, highlight and the highlight's style.
    spec fn base(&self) -> MenuView;

    /// The single-select menu that this menu is built on.
    fn get_menu(&self) -> (menu: &Menu)
        ensures
            menu@ == self.base(),
    ;

    /// The title.
    fn get_title(&self) -> (title: &String)
        ensures
            title@ == self.base().title,
    {
        self.get_menu().get_title()
    }

    /// The options.
    fn get_options(&self) -> (options: &Vec<String>)
        ensures
            texts(options@) == self.base().options,
    {
        self.get_menu().get_options()
    }

    /// The index of the highlighted row.
    fn get_selected_index(&self) -> (index: usize)
        ensures
            index == self.base().selected_index,
    {
        self.get_menu().get_selected_index()
    }

    /// The text of the option at `index`.
    fn format_option(&self, index: usize) -> (text: String)
        requires
            index < self.base().options.len(),
        ensures
            text@ == self.base().options[index as int],
    {
        self.get_menu().format_option(index)
    }

    /// The title with the line break that ends it.
    fn format_title(&self) -> (text: String)
        ensures
            text@ == self.base().title.push('\n'),
    {
        self.get_menu().format_title()
    }

    /// The operations that take the terminal over.
    fn setup_console(&self) -> (ops: Vec<DrawOp>)
        ensures
            draws(ops@) == setup_ops(),
    {
        setup_console()
    }

    /// The operations that give the terminal back.
    fn restore_console(&self) -> (ops: Vec<DrawOp>)
        ensures
            draws(ops@) == restore_ops(),
    {
        restore_console()
    }

    /// Tells whether the menu can be shown.
    fn is_well_formed(&self) -> (b: bool)
        ensures
            b == self.ready(),
    ;

    /// The full repaint.
    fn display(&self) -> (ops: Vec<DrawOp>)
        requires
            self.ready(),
        ensures
            draws(ops@) == self.model().display_ops(),
    ;

    /// The up key: the highlight moves one row up, unless it is on the first
    /// row, and the rows that changed are repainted.
    fn on_up_key(&mut self) -> (ops: Vec<DrawOp>)
        requires
            old(self).ready(),
        ensures
            final(self).ready(),
            final(self).model() == old(self).model().after(Command::MoveUp),
            draws(ops@) == old(self).model().ops_for(Command::MoveUp),
    ;

    /// The down key: the highlight moves one row down, unless it is on the
    /// last row, and the rows that changed are repainted.
    fn on_down_key(&mut self) -> (ops: Vec<DrawOp>)
        requires
            old(self).ready(),
        ensures
            final(self).ready(),
            final(self).model() == old(self).model().after(Command::MoveDown),
            draws(ops@) == old(self).model().ops_for(Command::MoveDown),
    ;

    /// The space key.
    fn on_space_key(&mut self) -> (ops: Vec<DrawOp>)
        requires
            old(self).ready(),
        ensures
            final(self).ready(),
            final(self).model() == old(self).model().after(Command::Toggle),
            draws(ops@) == old(self).model().ops_for(Command::Toggle),
    ;

    /// The selection on confirming.
    fn on_break(&self) -> (result: Option<Self::Selection>)
        ensures
            chosen(result) == self.model().result_for(Command::Confirm),
    ;

    /// What starting a session draws: the terminal is taken over and the
    /// menu painted in full.
    fn start(&self) -> (ops: Vec<DrawOp>)
        requires
            self.ready(),
        ensures
            draws(ops@) == start_ops(self.model()),
    {
        let mut ops = self.setup_console();
        emit_all(&mut ops, self.display());
        ops
    }

    /// Carries out `command` in a running session.
    fn on_command(&mut self, command: Command) -> (outcome: Outcome<Self::Selection>)
        requires
            old(self).ready(),
        ensures
            final(self).ready(),
            final(self).model() == old(self).model().after(command),
            draws(outcome.ops@) == old(self).model().ops_for(command),
            outcome.phase == command.phase_after(),
            chosen(outcome.result) == old(self).model().result_for(command),
    {
        proof {
            if command.ends_session() {
                self.model().lemma_ending_command(command);
            } else {
                self.model().lemma_running_command(command);
            }
        }
        match command {
            Command::MoveUp => Outcome { ops: self.on_up_key(), phase: Phase::Running, result: None },
            Command::MoveDown => Outcome {
                ops: self.on_down_key(),
                phase: Phase::Running,
                result: None,
            },
            Command::Toggle => Outcome {
                ops: self.on_space_key(),
                phase: Phase::Running,
                result: None,
            },
            Command::Confirm => Outcome {
                ops: self.restore_console(),
                phase: Phase::Done,
                result: self.on_break(),
            },
            Command::Cancel => Outcome {
                ops: self.restore_console(),
                phase: Phase::Done,
                result: None,
            },
            Command::Abort => Outcome {
                ops: self.restore_console(),
                phase: Phase::Aborted,
                result: None,
            },
            Command::Ignore => Outcome { ops: nothing(), phase: Phase::Running, result: None },
        }
    }

    /// Handles one key press of a running session.
    fn on_key(&mut self, key: KeyPress) -> (outcome: Outcome<Self::Selection>)
        requires
            old(self).ready(),
        ensures
            final(self).ready(),
            final(self).model() == old(self).model().after(key.command_spec()),
            draws(outcome.ops@) == old(self).model().ops_for(key.command_spec()),
            outcome.phase == key.command_spec().phase_after(),
            chosen(outcome.result) == old(self).model().result_for(key.command_spec()),
    {
        self.on_command(key.command())
    }

    /// Runs a whole session on the key presses `keys`: takes the terminal
    /// over, paints the menu, and handles the keys in order up to the first
    /// that ends the session. Where none of them does, the session is left
    /// running, to be continued with [`MenuLike::on_key`].
    fn run(&mut self, keys: &Vec<KeyPress>) -> (outcome: Outcome<Self::Selection>)
        requires
            old(self).ready(),
        ensures
            final(self).ready(),
            final(self).model() == session(old(self).model(), keys@).model,
            draws(outcome.ops@) == session(old(self).model(), keys@).ops,
            outcome.phase == session(old(self).model(), keys@).phase,
            chosen(outcome.result) == session(old(self).model(), keys@).result,
    {
        let mut ops = self.start();
        let ghost first = self.model();
        let ghost whole = run(first, keys@);
        let ghost mut done = Seq::<Draw>::empty();
        assert(keys@.skip(0) =~= keys@);
        let mut i: usize = 0;
        while i < keys.len()
            invariant
                i <= keys.len(),
                self.ready(),
                first == old(self).model(),
                draws(ops@) == start_ops(first) + done,
                whole == run(first, keys@),
                whole.model == run(self.model(), keys@.skip(i as int)).model,
                whole.phase == run(self.model(), keys@.skip(i as int)).phase,
                whole.result == run(self.model(), keys@.skip(i as int)).result,
                whole.ops == done + run(self.model(), keys@.skip(i as int)).ops,
            decreases keys.len() - i,
        {
            let ghost before = self.model();
            let ghost rest = keys@.skip(i as int);
            assert(rest[0] == keys@[i as int]);
            assert(rest.drop_first() =~= keys@.skip(i + 1));
            let step = self.on_key(keys[i]);
            emit_all(&mut ops, step.ops);
            proof {
                let command = keys@[i as int].command_spec();
                let drawn = before.ops_for(command);
                if command.ends_session() {
                    before.lemma_ending_command(command);
                    assert(whole.ops =~= done + drawn);
                } else {
                    assert(whole.ops =~= (done + drawn) + run(
                        self.model(),
                        keys@.skip(i + 1),
                    ).ops);
                }
                assert(draws(ops@) =~= start_ops(first) + (done + drawn));
                done = done + drawn;
            }
            match step.phase {
                Phase::Running => {},
                _ => {
                    return Outcome { ops, phase: step.phase, result: step.result };
                },
            }
            i = i + 1;
        }
        assert(keys@.skip(i as int) =~= Seq::<KeyPress>::empty());
        assert(whole.ops =~= done);
        Outcome { ops, phase: Phase::Running, result: None }
    }
}

} // verus!
