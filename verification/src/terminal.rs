//! The size of the terminal that the menu is to be shown in.

use vstd::prelude::*;

verus! {

/// The size of a terminal, in character cells.
#[derive(Clone, Copy, Debug, PartialEq, Eq, Structural)]
pub struct Size {
    /// The number of lines.
    pub rows: u16,
    /// The number of columns.
    pub cols: u16,
}

/// Calls `termsize::get`, which asks the operating system for the size of
/// the terminal behind standard output and gives none where standard output
/// is no terminal or the system does not answer. The answer depends on the
/// terminal of the moment, so nothing is claimed about it: callers handle
/// every size and the lack of one.
#[verifier::external_body]
pub(crate) fn terminal_size() -> (size: Option<Size>) {
    match termsize::get() {
        Some(size) => Some(Size { rows: size.rows, cols: size.cols }),
        None => None,
    }
}

} // verus!
