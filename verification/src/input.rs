//! Key presses and the commands they stand for.

use vstd::prelude::*;

verus! {

/// The way the highlight moves.
#[derive(Clone, Copy, Debug, PartialEq, Eq, Structural)]
pub enum Direction {
    Up,
    Down,
}

/// The key of a key press, as far as the widget tells keys apart.
#[derive(Clone, Copy, Debug, PartialEq, Eq, Structural)]
pub enum KeyCode {
    Up,
    Down,
    Enter,
    Esc,
    Char(char),
    /// Any other key.
    Other,
}

/// The modifier keys held down during a key press.
#[derive(Clone, Copy, Debug, PartialEq, Eq, Structural)]
pub struct Modifiers {
    pub shift: bool,
    pub control: bool,
    pub alt: bool,
}

/// One key press.
#[derive(Clone, Copy, Debug, PartialEq, Eq, Structural)]
pub struct KeyPress {
    pub code: KeyCode,
    pub modifiers: Modifiers,
}

/// What a key press asks the widget to do.
#[derive(Clone, Copy, Debug, PartialEq, Eq, Structural)]
pub enum Command {
    /// Move the highlight one row up.
    MoveUp,
    /// Move the highlight one row down.
    MoveDown,
    /// Check or uncheck the highlighted row.
    Toggle,
    /// Leave with the selection.
    Confirm,
    /// Leave without a selection.
    Cancel,
    /// Leave and end the process.
    Abort,
    /// Nothing.
    Ignore,
}

/// Where a session stands.
#[derive(Clone, Copy, Debug, PartialEq, Eq, Structural)]
pub enum Phase {
    /// Not started: the terminal is untouched.
    Idle,
    /// The list is on screen and keys are being read.
    Running,
    /// Left by confirming or cancelling; the terminal is restored.
    Done,
    /// Left by the interrupt key; the terminal is restored and the process
    /// is to end.
    Aborted,
}

impl Modifiers {
    /// No modifier key.
    pub open spec fn none() -> Modifiers {
        Modifiers { shift: false, control: false, alt: false }
    }

    /// The control key alone.
    pub open spec fn control_only() -> Modifiers {
        Modifiers { shift: false, control: true, alt: false }
    }

    /// Tells whether no modifier key is held.
    pub fn is_none(&self) -> (b: bool)
        ensures
            b == (*self == Modifiers::none()),
    {
        !self.shift && !self.control && !self.alt
    }

    /// Tells whether the control key is held and no other modifier.
    pub fn is_control_only(&self) -> (b: bool)
        ensures
            b == (*self == Modifiers::control_only()),
    {
        !self.shift && self.control && !self.alt
    }
}

impl KeyPress {
    /// The press of `code` with no modifier key.
    pub fn plain(code: KeyCode) -> (press: KeyPress)
        ensures
            press == (KeyPress { code, modifiers: Modifiers::none() }),
    {
        KeyPress { code, modifiers: Modifiers { shift: false, control: false, alt: false } }
    }

    /// The press of `code` with the control key.
    pub fn with_control(code: KeyCode) -> (press: KeyPress)
        ensures
            press == (KeyPress { code, modifiers: Modifiers::control_only() }),
    {
        KeyPress { code, modifiers: Modifiers { shift: false, control: true, alt: false } }
    }

    /// The command that this key press stands for: the arrow keys, space,
    /// enter and escape count only without a modifier, and the interrupt is
    /// `c` with the control key alone. Everything else is ignored.
    pub open spec fn command_spec(self) -> Command {
        if self.modifiers == Modifiers::none() {
            match self.code {
                KeyCode::Up => Command::MoveUp,
                KeyCode::Down => Command::MoveDown,
                KeyCode::Char(c) => if c == ' ' {
                    Command::Toggle
                } else {
                    Command::Ignore
                },
                KeyCode::Enter => Command::Confirm,
                KeyCode::Esc => Command::Cancel,
                KeyCode::Other => Command::Ignore,
            }
        } else if self.modifiers == Modifiers::control_only() && self.code == KeyCode::Char('c') {
            Command::Abort
        } else {
            Command::Ignore
        }
    }

    /// The command that this key press stands for.
    pub fn command(&self) -> (command: Command)
        ensures
            command == self.command_spec(),
    {
        if self.modifiers.is_none() {
            match self.code {
                KeyCode::Up => Command::MoveUp,
                KeyCode::Down => Command::MoveDown,
                KeyCode::Char(c) => if c == ' ' {
                    Command::Toggle
                } else {
                    Command::Ignore
                },
                KeyCode::Enter => Command::Confirm,
                KeyCode::Esc => Command::Cancel,
                KeyCode::Other => Command::Ignore,
            }
        } else if self.modifiers.is_control_only() {
            match self.code {
                KeyCode::Char(c) => if c == 'c' {
                    Command::Abort
                } else {
                    Command::Ignore
                },
                _ => Command::Ignore,
            }
        } else {
            Command::Ignore
        }
    }
}

impl Command {
    /// The phase that a running session is in after this command.
    pub open spec fn phase_after(self) -> Phase {
        match self {
            Command::Confirm | Command::Cancel => Phase::Done,
            Command::Abort => Phase::Aborted,
            _ => Phase::Running,
        }
    }

    /// Tells whether this command ends the session.
    pub open spec fn ends_session(self) -> bool {
        self.phase_after() != Phase::Running
    }
}

} // verus!
