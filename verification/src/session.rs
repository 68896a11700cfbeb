//! Sessions: what a menu of either kind comes to when keys are pressed.
//!
//! The two kinds of menu differ in what a command does to them and in what
//! it draws. What they share is stated here once, for any state that says
//! how it answers a command: how a sequence of key presses is run, and what
//! holds of every such run.

use vstd::prelude::*;
use crate::cursor::Pen;
use crate::draw::{paints_only, Draw, TerminalMode};
use crate::input::{Command, KeyPress, Phase};

verus! {

/// The operations that take the terminal over: raw input, hidden cursor.
pub open spec fn setup_ops() -> Seq<Draw> {
    seq![Draw::EnableRawMode, Draw::HideCursor]
}

/// The operations that give the terminal back: normal input, a clear screen
/// with the cursor at its top, visible.
pub open spec fn restore_ops() -> Seq<Draw> {
    seq![Draw::DisableRawMode, Draw::ClearScreen, Draw::MoveTo(0, 0), Draw::ShowCursor]
}

/// What a session has come to after some key presses.
pub struct Trace<M, R> {
    /// The menu's state.
    pub model: M,
    /// Every draw operation emitted, in order.
    pub ops: Seq<Draw>,
    /// Where the session stands.
    pub phase: Phase,
    /// The selection that the session was left with, if any.
    pub result: Option<R>,
}

/// The state of a menu, as far as a session is concerned: it says how it
/// answers each command.
pub trait SessionModel: Sized {
    /// What a confirmed selection is.
    type Choice;

    /// The state after `command`.
    spec fn after(self, command: Command) -> Self;

    /// What `command` draws in this state.
    spec fn ops_for(self, command: Command) -> Seq<Draw>;

    /// The selection that `command` leaves the session with.
    spec fn result_for(self, command: Command) -> Option<Self::Choice>;

    /// The full repaint of this state.
    spec fn display_ops(self) -> Seq<Draw>;

    /// A command that ends the session changes nothing, gives the terminal
    /// back and draws nothing else, and only confirming gives a selection.
    proof fn lemma_ending_command(self, command: Command)
        requires
            command.ends_session(),
        ensures
            self.after(command) == self,
            self.ops_for(command) == restore_ops(),
            command != Command::Confirm ==> self.result_for(command) is None,
    ;

    /// A command that does not end the session leaves the terminal's mode
    /// alone and gives no selection, and an ignored key changes nothing and
    /// draws nothing.
    proof fn lemma_running_command(self, command: Command)
        requires
            !command.ends_session(),
        ensures
            forall|i: int|
                0 <= i < self.ops_for(command).len() ==> paints_only(
                    #[trigger] self.ops_for(command)[i],
                ),
            self.result_for(command) is None,
            command == Command::Ignore ==> self.after(command) == self && self.ops_for(command)
                == Seq::<Draw>::empty(),
    ;

    /// The full repaint leaves the terminal's mode alone.
    proof fn lemma_display_paints_only(self)
        ensures
            forall|i: int|
                0 <= i < self.display_ops().len() ==> paints_only(#[trigger] self.display_ops()[i]),
    ;

    /// Tells whether the menu is laid out on the screen row by row: it can
    /// be shown, and each of its rows takes one line.
    spec fn laid_out(self) -> bool;

    /// The screen row of the highlighted option.
    spec fn highlight_row(self) -> int;

    /// The full repaint leaves the cursor on the highlighted option's row,
    /// wherever it started.
    proof fn lemma_display_finds_highlight(self, pen: Pen)
        requires
            self.laid_out(),
        ensures
            pen.after(self.display_ops()).row == self.highlight_row(),
    ;

    /// A command that does not end the session takes a cursor that is on
    /// the highlighted option's row to the row of the option that is
    /// highlighted afterwards, and the menu stays laid out.
    proof fn lemma_command_follows_highlight(self, command: Command, pen: Pen)
        requires
            self.laid_out(),
            !command.ends_session(),
            pen.row == self.highlight_row(),
        ensures
            self.after(command).laid_out(),
            pen.after(self.ops_for(command)).row == self.after(command).highlight_row(),
    ;
}

/// A running session in the state `model` after the key presses `keys`, read
/// up to the first that ends it.
pub open spec fn run<M: SessionModel>(model: M, keys: Seq<KeyPress>) -> Trace<M, M::Choice>
    decreases keys.len(),
{
    if keys.len() == 0 {
        Trace { model, ops: seq![], phase: Phase::Running, result: None }
    } else {
        let command = keys[0].command_spec();
        if command.ends_session() {
            Trace {
                model,
                ops: model.ops_for(command),
                phase: command.phase_after(),
                result: model.result_for(command),
            }
        } else {
            let rest = run(model.after(command), keys.drop_first());
            Trace { ops: model.ops_for(command) + rest.ops, ..rest }
        }
    }
}

/// What starting a session in the state `model` draws: the terminal is taken
/// over and the menu painted in full.
pub open spec fn start_ops<M: SessionModel>(model: M) -> Seq<Draw> {
    setup_ops() + model.display_ops()
}

/// A whole session: started in the state `model`, then driven by `keys`.
pub open spec fn session<M: SessionModel>(model: M, keys: Seq<KeyPress>) -> Trace<M, M::Choice> {
    let run = run(model, keys);
    Trace { ops: start_ops(model) + run.ops, ..run }
}

/// A session that still runs after `keys` goes on with `key` as a fresh
/// session in the state reached would start: the state, the draw operations,
/// the phase and the selection after one more key are those of the command
/// that the key stands for.
pub proof fn lemma_run_one_more<M: SessionModel>(model: M, keys: Seq<KeyPress>, key: KeyPress)
    requires
        run(model, keys).phase == Phase::Running,
    ensures
        run(model, keys.push(key)) == (Trace {
            model: run(model, keys).model.after(key.command_spec()),
            ops: run(model, keys).ops + run(model, keys).model.ops_for(key.command_spec()),
            phase: key.command_spec().phase_after(),
            result: run(model, keys).model.result_for(key.command_spec()),
        }),
    decreases keys.len(),
{
    let longer = keys.push(key);
    let last = key.command_spec();
    if keys.len() == 0 {
        assert(longer.drop_first() =~= Seq::<KeyPress>::empty());
        assert(longer[0] == key);
        if last.ends_session() {
            model.lemma_ending_command(last);
        } else {
            model.lemma_running_command(last);
        }
        assert(run(model.after(last), Seq::<KeyPress>::empty()).phase == Phase::Running);
        assert(run(model.after(last), longer.drop_first()).ops =~= Seq::<Draw>::empty());
        assert(run(model, keys).ops + model.ops_for(last) =~= model.ops_for(last));
        assert(run(model, longer).ops =~= model.ops_for(last));
    } else {
        let command = keys[0].command_spec();
        assert(longer[0] == keys[0]);
        assert(longer.drop_first() =~= keys.drop_first().push(key));
        let next = model.after(command);
        lemma_run_one_more(next, keys.drop_first(), key);
        let rest = run(next, keys.drop_first());
        assert(run(model, longer).ops =~= run(model, keys).ops + rest.model.ops_for(last));
    }
}

/// A session runs for as long as no key has ended it, and a key is read only
/// while it runs: the phase after `keys` is that of the first key that ends
/// the session, and running where there is none.
pub proof fn lemma_phase_follows_keys<M: SessionModel>(model: M, keys: Seq<KeyPress>)
    ensures
        run(model, keys).phase == Phase::Running <==> forall|i: int|
            0 <= i < keys.len() ==> !(#[trigger] keys[i]).command_spec().ends_session(),
    decreases keys.len(),
{
    if keys.len() > 0 {
        let command = keys[0].command_spec();
        if !command.ends_session() {
            lemma_phase_follows_keys(model.after(command), keys.drop_first());
            let rest = keys.drop_first();
            if run(model, keys).phase == Phase::Running {
                assert forall|i: int| 0 <= i < keys.len() implies !(#[trigger] keys[i]).command_spec().ends_session() by {
                    if i > 0 {
                        assert(keys[i] == rest[i - 1]);
                    }
                }
            } else {
                let i = choose|i: int|
                    0 <= i < rest.len() && (#[trigger] rest[i]).command_spec().ends_session();
                assert(keys[i + 1] == rest[i]);
            }
        }
    }
}

/// Only confirming gives a selection: a session left in another way, or
/// still running, has none.
pub proof fn lemma_selection_needs_confirming<M: SessionModel>(
    model: M,
    keys: Seq<KeyPress>,
    key: KeyPress,
)
    requires
        run(model, keys).phase == Phase::Running,
        key.command_spec() != Command::Confirm,
    ensures
        run(model, keys.push(key)).result is None,
{
    lemma_run_one_more(model, keys, key);
    let reached = run(model, keys).model;
    if key.command_spec().ends_session() {
        reached.lemma_ending_command(key.command_spec());
    } else {
        reached.lemma_running_command(key.command_spec());
    }
}

/// Taking the terminal over leaves it in raw mode with the cursor hidden.
pub proof fn lemma_setup_takes_over()
    ensures
        TerminalMode::normal().after(setup_ops()) == TerminalMode::taken_over(),
{
    let ops = setup_ops();
    assert(ops.drop_last() =~= seq![Draw::EnableRawMode]);
    assert(ops.drop_last().drop_last() =~= Seq::<Draw>::empty());
    reveal_with_fuel(TerminalMode::after, 3);
}

/// Giving the terminal back leaves it in normal mode, whatever mode it was in.
pub proof fn lemma_restore_gives_back()
    ensures
        forall|mode: TerminalMode| #[trigger] mode.after(restore_ops()) == TerminalMode::normal(),
{
    let ops = restore_ops();
    assert(ops.drop_last() =~= seq![Draw::DisableRawMode, Draw::ClearScreen, Draw::MoveTo(0, 0)]);
    assert(ops.drop_last().drop_last() =~= seq![Draw::DisableRawMode, Draw::ClearScreen]);
    assert(ops.drop_last().drop_last().drop_last() =~= seq![Draw::DisableRawMode]);
    assert(ops.drop_last().drop_last().drop_last().drop_last() =~= Seq::<Draw>::empty());
    reveal_with_fuel(TerminalMode::after, 5);
}

/// Starting a session takes a terminal in normal mode over.
pub proof fn lemma_start_takes_over<M: SessionModel>(model: M)
    ensures
        TerminalMode::normal().after(start_ops(model)) == TerminalMode::taken_over(),
{
    model.lemma_display_paints_only();
    TerminalMode::normal().lemma_after_concat(setup_ops(), model.display_ops());
    lemma_setup_takes_over();
    TerminalMode::taken_over().lemma_painting_keeps_mode(model.display_ops());
}

/// The terminal is in a session's hands exactly while the session runs:
/// after the draw operations of a run from a terminal taken over, the
/// terminal is still taken over if the session still runs, and back in
/// normal mode if it was left, by whichever of the three commands.
pub proof fn lemma_run_restores_terminal<M: SessionModel>(model: M, keys: Seq<KeyPress>)
    ensures
        TerminalMode::taken_over().after(run(model, keys).ops) == if run(model, keys).phase
            == Phase::Running {
            TerminalMode::taken_over()
        } else {
            TerminalMode::normal()
        },
    decreases keys.len(),
{
    let taken = TerminalMode::taken_over();
    if keys.len() > 0 {
        let command = keys[0].command_spec();
        if command.ends_session() {
            model.lemma_ending_command(command);
            lemma_restore_gives_back();
        } else {
            let next = model.after(command);
            lemma_run_restores_terminal(next, keys.drop_first());
            model.lemma_running_command(command);
            taken.lemma_painting_keeps_mode(model.ops_for(command));
            taken.lemma_after_concat(model.ops_for(command), run(next, keys.drop_first()).ops);
        }
    }
}

/// A whole session leaves the terminal as it found it: from a terminal in
/// normal mode, the terminal is taken over while the session runs and back
/// in normal mode once it was left, by confirming, by cancelling or by the
/// interrupt.
pub proof fn lemma_session_restores_terminal<M: SessionModel>(model: M, keys: Seq<KeyPress>)
    ensures
        TerminalMode::normal().after(session(model, keys).ops) == if session(model, keys).phase
            == Phase::Running {
            TerminalMode::taken_over()
        } else {
            TerminalMode::normal()
        },
{
    lemma_start_takes_over(model);
    lemma_run_restores_terminal(model, keys);
    TerminalMode::normal().lemma_after_concat(start_ops(model), run(model, keys).ops);
}

/// While a session runs, the cursor is on the highlighted option's row
/// after every key: a run that starts with the cursor there leaves it on the
/// row of the option that is highlighted in the end.
pub proof fn lemma_cursor_follows_highlight<M: SessionModel>(
    model: M,
    keys: Seq<KeyPress>,
    pen: Pen,
)
    requires
        model.laid_out(),
        pen.row == model.highlight_row(),
        run(model, keys).phase == Phase::Running,
    ensures
        run(model, keys).model.laid_out(),
        pen.after(run(model, keys).ops).row == run(model, keys).model.highlight_row(),
    decreases keys.len(),
{
    if keys.len() > 0 {
        let command = keys[0].command_spec();
        let next = model.after(command);
        let drawn = model.ops_for(command);
        model.lemma_command_follows_highlight(command, pen);
        lemma_cursor_follows_highlight(next, keys.drop_first(), pen.after(drawn));
        pen.lemma_after_concat(drawn, run(next, keys.drop_first()).ops);
    }
}

/// From its start on, a session that still runs has the cursor on the
/// highlighted option's row, wherever the cursor was before.
pub proof fn lemma_session_keeps_cursor_on_highlight<M: SessionModel>(
    model: M,
    keys: Seq<KeyPress>,
    pen: Pen,
)
    requires
        model.laid_out(),
        session(model, keys).phase == Phase::Running,
    ensures
        pen.after(session(model, keys).ops).row == session(model, keys).model.highlight_row(),
{
    let painted = pen.after(start_ops(model));
    pen.lemma_after_concat(setup_ops(), model.display_ops());
    model.lemma_display_finds_highlight(pen.after(setup_ops()));
    lemma_cursor_follows_highlight(model, keys, painted);
    pen.lemma_after_concat(start_ops(model), run(model, keys).ops);
}

} // verus!
