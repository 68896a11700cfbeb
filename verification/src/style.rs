//! Colors that a row can be drawn in.

use vstd::prelude::*;

verus! {

/// A terminal color: one of the sixteen named colors, the terminal's own
/// default (`Reset`), an RGB triple, or an entry of the 256-color palette.
/// The widget never looks inside a color; it hands it on to the terminal.
#[derive(Clone, Copy, Debug, PartialEq, Eq, Structural)]
pub enum Color {
    Reset,
    Black,
    DarkGrey,
    Red,
    DarkRed,
    Green,
    DarkGreen,
    Yellow,
    DarkYellow,
    Blue,
    DarkBlue,
    Magenta,
    DarkMagenta,
    Cyan,
    DarkCyan,
    White,
    Grey,
    Rgb { r: u8, g: u8, b: u8 },
    AnsiValue(u8),
}

} // verus!
