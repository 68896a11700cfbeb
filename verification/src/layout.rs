//! Checks that a menu fits the terminal it is to be shown in.

use vstd::prelude::*;
use crate::error::ValidationError;
use crate::terminal::Size;
use crate::text::{byte_len, byte_length, count_char, has_char, line_breaks, texts};

verus! {

/// What keeps the option `option`, the one at `index`, from being a row of a
/// terminal `cols` wide, where rows begin with a selector of `indent` bytes:
/// its length, a line break in it, or a tab in it, looked for in this order.
pub open spec fn option_error(option: Seq<char>, index: nat, indent: nat, cols: u16) -> Option<
    ValidationError,
> {
    if byte_len(option) + indent > cols {
        Some(ValidationError::OptionTooLong(index as usize))
    } else if option.contains('\n') {
        Some(ValidationError::OptionContainsNewLine(index as usize))
    } else if option.contains('\t') {
        Some(ValidationError::OptionContainsTab(index as usize))
    } else {
        None
    }
}

/// The error of the first among the first `count` options that has one.
pub open spec fn options_error(options: Seq<Seq<char>>, indent: nat, cols: u16, count: nat) -> Option<
    ValidationError,
>
    decreases count,
{
    if count == 0 {
        None
    } else {
        match options_error(options, indent, cols, (count - 1) as nat) {
            Some(error) => Some(error),
            None => option_error(options[count - 1], (count - 1) as nat, indent, cols),
        }
    }
}

/// What keeps a menu with this title and these options from fitting a
/// terminal of the size `size`, where rows begin with a selector of `indent`
/// bytes: a title longer than the terminal is wide, then the first option that
/// cannot be a row, then more lines than the terminal has.
pub open spec fn layout_error(title: Seq<char>, options: Seq<Seq<char>>, indent: nat, size: Size) -> Option<
    ValidationError,
> {
    if byte_len(title) > size.cols {
        Some(ValidationError::TitleTooLong)
    } else if options_error(options, indent, size.cols, options.len()) is Some {
        options_error(options, indent, size.cols, options.len())
    } else if 2 + line_breaks(title) + options.len() > size.rows {
        Some(ValidationError::MenuTooTall)
    } else {
        None
    }
}

/// Where the first `count` options have no error, none of them has one.
pub proof fn lemma_no_error_anywhere(
    options: Seq<Seq<char>>,
    indent: nat,
    cols: u16,
    count: nat,
    index: nat,
)
    requires
        index < count,
        options_error(options, indent, cols, count) is None,
    ensures
        option_error(options[index as int], index, indent, cols) is None,
    decreases count,
{
    if index + 1 < count {
        lemma_no_error_anywhere(options, indent, cols, (count - 1) as nat, index);
    }
}

/// Checks one option against a terminal `cols` wide: see [`option_error`].
pub fn check_option(option: &str, index: usize, indent: usize, cols: u16) -> (error: Option<
    ValidationError,
>)
    ensures
        error == option_error(option@, index as nat, indent as nat, cols),
{
    let length = byte_length(option);
    let width = cols as usize;
    if length > width || indent > width - length {
        Some(ValidationError::OptionTooLong(index))
    } else if has_char(option, '\n') {
        Some(ValidationError::OptionContainsNewLine(index))
    } else if has_char(option, '\t') {
        Some(ValidationError::OptionContainsTab(index))
    } else {
        None
    }
}

/// Once one of the first `found` options has an error, that error stays the
/// first, however many more options are looked at.
pub proof fn lemma_first_error_stays(
    options: Seq<Seq<char>>,
    indent: nat,
    cols: u16,
    found: nat,
    count: nat,
)
    requires
        found <= count,
        options_error(options, indent, cols, found) is Some,
    ensures
        options_error(options, indent, cols, count) == options_error(options, indent, cols, found),
    decreases count,
{
    if found < count {
        lemma_first_error_stays(options, indent, cols, found, (count - 1) as nat);
    }
}

/// The error found among the first `count` options is that of the first
/// option that has one: an option before which every option is without
/// error.
pub proof fn lemma_first_error_is_least(
    options: Seq<Seq<char>>,
    indent: nat,
    cols: u16,
    count: nat,
) -> (index: nat)
    requires
        options_error(options, indent, cols, count) is Some,
    ensures
        index < count,
        option_error(options[index as int], index, indent, cols) == options_error(
            options,
            indent,
            cols,
            count,
        ),
        forall|earlier: nat|
            earlier < index ==> #[trigger] option_error(
                options[earlier as int],
                earlier,
                indent,
                cols,
            ) is None,
    decreases count,
{
    let before = (count - 1) as nat;
    if options_error(options, indent, cols, before) is Some {
        lemma_first_error_is_least(options, indent, cols, before)
    } else {
        assert forall|earlier: nat| earlier < before implies #[trigger] option_error(
            options[earlier as int],
            earlier,
            indent,
            cols,
        ) is None by {
            lemma_no_error_anywhere(options, indent, cols, before, earlier);
        }
        before
    }
}

/// Checks the options in order and returns the error of the first that has
/// one: see [`options_error`].
pub fn check_options(options: &Vec<String>, indent: usize, cols: u16) -> (error: Option<
    ValidationError,
>)
    ensures
        error == options_error(texts(options@), indent as nat, cols, options.len() as nat),
{
    let mut i: usize = 0;
    while i < options.len()
        invariant
            i <= options.len(),
            options_error(texts(options@), indent as nat, cols, i as nat) is None,
        decreases options.len() - i,
    {
        let error = check_option(options[i].as_str(), i, indent, cols);
        if error.is_some() {
            proof {
                lemma_first_error_stays(
                    texts(options@),
                    indent as nat,
                    cols,
                    (i + 1) as nat,
                    options.len() as nat,
                );
            }
            return error;
        }
        i = i + 1;
    }
    None
}

/// Checks a title and options against a terminal of the size `size`: see
/// [`layout_error`].
pub fn check_layout(title: &str, options: &Vec<String>, indent: usize, size: Size) -> (error: Option<
    ValidationError,
>)
    ensures
        error == layout_error(title@, texts(options@), indent as nat, size),
{
    if byte_length(title) > size.cols as usize {
        return Some(ValidationError::TitleTooLong);
    }
    let error = check_options(options, indent, size.cols);
    if error.is_some() {
        return error;
    }
    let rows = size.rows as usize;
    let breaks = count_char(title, '\n');
    if rows < 2 || breaks > rows - 2 || options.len() > rows - 2 - breaks {
        return Some(ValidationError::MenuTooTall);
    }
    None
}

} // verus!
