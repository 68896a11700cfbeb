//! Why a menu was refused at construction.

use vstd::prelude::*;

verus! {

/// A reason for which a menu cannot be shown. Each is found before the
/// terminal is touched.
#[derive(Clone, Copy, Debug, PartialEq, Eq, Structural)]
pub enum ValidationError {
    /// The two selector glyphs of a multi-select menu differ in length.
    SelectorLengthMismatch,
    /// The row to highlight first, given here, is not a row of the list.
    SelectedIndexOutOfRange(usize),
    /// The row given here was to be checked at the start and is not a row of
    /// the list.
    CheckedIndexOutOfRange(usize),
    /// The size of the terminal could not be found out.
    TerminalSizeUnknown,
    /// The title is longer than the terminal is wide.
    TitleTooLong,
    /// The option at this index, with the selector before it, is longer than
    /// the terminal is wide.
    OptionTooLong(usize),
    /// The option at this index contains a line break.
    OptionContainsNewLine(usize),
    /// The option at this index contains a tab.
    OptionContainsTab(usize),
    /// The title and the options take more lines than the terminal has.
    MenuTooTall,
}

/// The character of the decimal digit `digit`.
pub open spec fn digit_char(digit: nat) -> char {
    if digit == 0 {
        '0'
    } else if digit == 1 {
        '1'
    } else if digit == 2 {
        '2'
    } else if digit == 3 {
        '3'
    } else if digit == 4 {
        '4'
    } else if digit == 5 {
        '5'
    } else if digit == 6 {
        '6'
    } else if digit == 7 {
        '7'
    } else if digit == 8 {
        '8'
    } else {
        '9'
    }
}

/// The number `n` written in decimal, without leading zeros.
pub open spec fn decimal(n: nat) -> Seq<char>
    decreases n,
{
    if n < 10 {
        seq![digit_char(n)]
    } else {
        decimal(n / 10).push(digit_char(n % 10))
    }
}

/// The decimal digit `digit` as a text.
fn digit_text(digit: usize) -> (text: &'static str)
    requires
        digit < 10,
    ensures
        text@ == seq![digit_char(digit as nat)],
{
    proof {
        reveal_strlit("0");
        reveal_strlit("1");
        reveal_strlit("2");
        reveal_strlit("3");
        reveal_strlit("4");
        reveal_strlit("5");
        reveal_strlit("6");
        reveal_strlit("7");
        reveal_strlit("8");
        reveal_strlit("9");
    }
    let text = if digit == 0 {
        "0"
    } else if digit == 1 {
        "1"
    } else if digit == 2 {
        "2"
    } else if digit == 3 {
        "3"
    } else if digit == 4 {
        "4"
    } else if digit == 5 {
        "5"
    } else if digit == 6 {
        "6"
    } else if digit == 7 {
        "7"
    } else if digit == 8 {
        "8"
    } else {
        "9"
    };
    assert(text@ =~= seq![digit_char(digit as nat)]);
    text
}

/// Writes `n` in decimal.
pub fn decimal_text(n: usize) -> (text: String)
    ensures
        text@ == decimal(n as nat),
    decreases n,
{
    if n < 10 {
        String::from_str(digit_text(n))
    } else {
        let mut text = decimal_text(n / 10);
        text.append(digit_text(n % 10));
        assert(text@ =~= decimal(n as nat));
        text
    }
}

/// `before`, then `index` in decimal, then `after`.
fn around_index(before: &str, index: usize, after: &str) -> (text: String)
    ensures
        text@ == before@ + decimal(index as nat) + after@,
{
    let mut text = String::from_str(before);
    text.append(decimal_text(index).as_str());
    text.append(after);
    text
}

impl ValidationError {
    /// The error in words.
    pub open spec fn message_spec(self) -> Seq<char> {
        match self {
            ValidationError::SelectorLengthMismatch =>
                "selected_selector length must be equal to selector length"@,
            ValidationError::SelectedIndexOutOfRange(index) => "Selected option ["@ + decimal(
                index as nat,
            ) + "] is out of range"@,
            ValidationError::CheckedIndexOutOfRange(index) => "Selected option ["@ + decimal(
                index as nat,
            ) + "] is out of range"@,
            ValidationError::TerminalSizeUnknown => "Terminal size is unknown"@,
            ValidationError::TitleTooLong => "Title is too long"@,
            ValidationError::OptionTooLong(index) => "Option ["@ + decimal(index as nat)
                + "] is too long"@,
            ValidationError::OptionContainsNewLine(index) => "Option ["@ + decimal(index as nat)
                + "] contains new line"@,
            ValidationError::OptionContainsTab(index) => "Option ["@ + decimal(index as nat)
                + "] contains tab"@,
            ValidationError::MenuTooTall => "Menu will not fit on screen"@,
        }
    }

    /// The error in words, for the user to read.
    pub fn message(&self) -> (text: String)
        ensures
            text@ == self.message_spec(),
    {
        match *self {
            ValidationError::SelectorLengthMismatch => String::from_str(
                "selected_selector length must be equal to selector length",
            ),
            ValidationError::SelectedIndexOutOfRange(index) => around_index(
                "Selected option [",
                index,
                "] is out of range",
            ),
            ValidationError::CheckedIndexOutOfRange(index) => around_index(
                "Selected option [",
                index,
                "] is out of range",
            ),
            ValidationError::TerminalSizeUnknown => String::from_str("Terminal size is unknown"),
            ValidationError::TitleTooLong => String::from_str("Title is too long"),
            ValidationError::OptionTooLong(index) => around_index(
                "Option [",
                index,
                "] is too long",
            ),
            ValidationError::OptionContainsNewLine(index) => around_index(
                "Option [",
                index,
                "] contains new line",
            ),
            ValidationError::OptionContainsTab(index) => around_index(
                "Option [",
                index,
                "] contains tab",
            ),
            ValidationError::MenuTooTall => String::from_str("Menu will not fit on screen"),
        }
    }
}

} // verus!
