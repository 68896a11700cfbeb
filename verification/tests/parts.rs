use menu::error::decimal_text;
use menu::layout::{check_layout, check_option, check_options};
use menu::text::{byte_length, count_char, has_char, with_line_break};
use menu::{Command, KeyCode, KeyPress, Modifiers, Size, ValidationError};

#[test]
fn keys_stand_for_commands_only_without_modifiers() {
    assert_eq!(KeyPress::plain(KeyCode::Up).command(), Command::MoveUp);
    assert_eq!(KeyPress::plain(KeyCode::Down).command(), Command::MoveDown);
    assert_eq!(KeyPress::plain(KeyCode::Char(' ')).command(), Command::Toggle);
    assert_eq!(KeyPress::plain(KeyCode::Enter).command(), Command::Confirm);
    assert_eq!(KeyPress::plain(KeyCode::Esc).command(), Command::Cancel);
    assert_eq!(KeyPress::plain(KeyCode::Char('c')).command(), Command::Ignore);
    assert_eq!(KeyPress::plain(KeyCode::Other).command(), Command::Ignore);
    for code in [KeyCode::Up, KeyCode::Down, KeyCode::Enter, KeyCode::Esc, KeyCode::Char(' ')] {
        let shifted =
            KeyPress { code, modifiers: Modifiers { shift: true, control: false, alt: false } };
        assert_eq!(shifted.command(), Command::Ignore);
        assert_eq!(KeyPress::with_control(code).command(), Command::Ignore);
    }
}

#[test]
fn the_interrupt_is_control_c_alone() {
    assert_eq!(KeyPress::with_control(KeyCode::Char('c')).command(), Command::Abort);
    assert_eq!(KeyPress::with_control(KeyCode::Char('d')).command(), Command::Ignore);
    let more = KeyPress {
        code: KeyCode::Char('c'),
        modifiers: Modifiers { shift: false, control: true, alt: true },
    };
    assert_eq!(more.command(), Command::Ignore);
    let none = Modifiers { shift: false, control: false, alt: false };
    assert!(none.is_none());
    assert!(!none.is_control_only());
    let control = Modifiers { shift: false, control: true, alt: false };
    assert!(control.is_control_only());
    assert!(!control.is_none());
}

#[test]
fn text_is_counted_by_characters_and_measured_in_bytes() {
    assert_eq!(count_char("a\nb\n\nc", '\n'), 3);
    assert_eq!(count_char("", '\n'), 0);
    assert_eq!(count_char("äää", 'ä'), 3);
    assert!(has_char("a\tb", '\t'));
    assert!(!has_char("a b", '\t'));
    assert_eq!(byte_length("äb"), 3);
    assert_eq!(byte_length(""), 0);
    assert_eq!(with_line_break("ab"), "ab\n");
}

#[test]
fn numbers_are_written_in_decimal() {
    assert_eq!(decimal_text(0), "0");
    assert_eq!(decimal_text(7), "7");
    assert_eq!(decimal_text(10), "10");
    assert_eq!(decimal_text(1234567890), "1234567890");
    assert_eq!(decimal_text(usize::MAX), usize::MAX.to_string());
}

#[test]
fn every_error_has_its_message() {
    assert_eq!(
        ValidationError::SelectorLengthMismatch.message(),
        "selected_selector length must be equal to selector length"
    );
    assert_eq!(
        ValidationError::SelectedIndexOutOfRange(5).message(),
        "Selected option [5] is out of range"
    );
    assert_eq!(
        ValidationError::CheckedIndexOutOfRange(12).message(),
        "Selected option [12] is out of range"
    );
    assert_eq!(ValidationError::TerminalSizeUnknown.message(), "Terminal size is unknown");
    assert_eq!(ValidationError::TitleTooLong.message(), "Title is too long");
    assert_eq!(ValidationError::OptionTooLong(0).message(), "Option [0] is too long");
    assert_eq!(ValidationError::OptionContainsNewLine(3).message(), "Option [3] contains new line");
    assert_eq!(ValidationError::OptionContainsTab(104).message(), "Option [104] contains tab");
    assert_eq!(ValidationError::MenuTooTall.message(), "Menu will not fit on screen");
}

#[test]
fn an_option_is_examined_for_length_then_line_break_then_tab() {
    assert_eq!(check_option("abc", 4, 2, 5), None);
    assert_eq!(check_option("abcd", 4, 2, 5), Some(ValidationError::OptionTooLong(4)));
    assert_eq!(check_option("a\n\t", 1, 0, 5), Some(ValidationError::OptionContainsNewLine(1)));
    assert_eq!(check_option("a\t", 2, 0, 5), Some(ValidationError::OptionContainsTab(2)));
    assert_eq!(check_option("", 0, 6, 5), Some(ValidationError::OptionTooLong(0)));
    assert_eq!(check_option("", 0, usize::MAX, 5), Some(ValidationError::OptionTooLong(0)));
}

#[test]
fn options_are_examined_in_order() {
    let list = vec!["a".to_string(), "b\t".to_string(), "c\n".to_string()];
    assert_eq!(check_options(&list, 1, 10), Some(ValidationError::OptionContainsTab(1)));
    assert_eq!(check_options(&list[..1].to_vec(), 1, 10), None);
    assert_eq!(check_options(&Vec::new(), 1, 10), None);
}

#[test]
fn the_layout_needs_two_lines_beyond_title_and_options() {
    let list = vec!["a".to_string(), "b".to_string()];
    assert_eq!(check_layout("t", &list, 1, Size { rows: 4, cols: 2 }), None);
    assert_eq!(
        check_layout("t", &list, 1, Size { rows: 3, cols: 2 }),
        Some(ValidationError::MenuTooTall)
    );
    assert_eq!(
        check_layout("t\n", &list, 1, Size { rows: 4, cols: 2 }),
        Some(ValidationError::MenuTooTall)
    );
    assert_eq!(
        check_layout("ttt", &list, 1, Size { rows: 4, cols: 2 }),
        Some(ValidationError::TitleTooLong)
    );
    assert_eq!(
        check_layout("t", &list, 2, Size { rows: 0, cols: 2 }),
        Some(ValidationError::OptionTooLong(0))
    );
}

fn confirm_after<M: menu::MenuLike>(menu: &mut M, keys: &[KeyPress]) -> Option<M::Selection> {
    assert!(menu.is_well_formed());
    let mut all = keys.to_vec();
    all.push(KeyPress::plain(KeyCode::Enter));
    let outcome = menu.run(&all);
    assert_eq!(outcome.phase, menu::Phase::Done);
    assert_eq!(outcome.ops[0], menu::DrawOp::EnableRawMode);
    assert_eq!(outcome.ops.last(), Some(&menu::DrawOp::ShowCursor));
    outcome.result
}

#[test]
fn a_session_is_the_same_for_both_kinds_of_menu() {
    let keys = [
        KeyPress::plain(KeyCode::Char(' ')),
        KeyPress::plain(KeyCode::Down),
        KeyPress::plain(KeyCode::Down),
        KeyPress::plain(KeyCode::Char(' ')),
        KeyPress::plain(KeyCode::Up),
    ];
    let mut single = menu::Menu::default();
    assert_eq!(confirm_after(&mut single, &keys), Some(1));
    let mut multi = menu::MultiMenu::default();
    let expected: std::collections::HashSet<usize> = [0, 2].into_iter().collect();
    assert_eq!(confirm_after(&mut multi, &keys), Some(expected));
}

#[test]
fn the_pieces_of_a_session_are_reached_through_the_trait() {
    let mut single = menu::Menu::default();
    let painted = menu::MenuLike::display(&single);
    assert_eq!(painted, single.display());
    let moved = menu::MenuLike::on_down_key(&mut single);
    assert_eq!(moved.len(), 11);
    assert!(menu::MenuLike::on_space_key(&mut single).is_empty());
    assert_eq!(menu::MenuLike::on_break(&single), Some(1));
    assert_eq!(menu::MenuLike::on_up_key(&mut single).len(), 11);
    let outcome = menu::MenuLike::on_command(&mut single, Command::Abort);
    assert_eq!(outcome.phase, menu::Phase::Aborted);
    assert!(menu::draw::nothing().is_empty());
    let mut ops = vec![menu::DrawOp::ClearLine];
    menu::draw::emit_all(&mut ops, vec![menu::DrawOp::ResetColor, menu::DrawOp::HideCursor]);
    assert_eq!(
        ops,
        vec![menu::DrawOp::ClearLine, menu::DrawOp::ResetColor, menu::DrawOp::HideCursor]
    );
    menu::draw::emit(&mut ops, menu::DrawOp::ShowCursor);
    assert_eq!(ops.len(), 4);
    assert_eq!(ops[3], menu::DrawOp::ShowCursor);
}

fn title_and_rows<M: menu::MenuLike>(menu: &M) -> (String, Vec<String>, usize) {
    let rows = (0..menu.get_options().len()).map(|index| menu.format_option(index)).collect();
    (menu.format_title(), rows, menu.get_selected_index())
}

#[test]
fn the_parts_of_either_menu_are_read_through_the_trait() {
    let single = menu::Menu::default();
    let expected: Vec<String> =
        ["Option 1", "Option 2", "Option 3"].iter().map(|text| text.to_string()).collect();
    assert_eq!(title_and_rows(&single), ("Single Select Menu\n".to_string(), expected.clone(), 0));
    let mut multi = menu::MultiMenu::default();
    multi.selected_index(2);
    assert_eq!(title_and_rows(&multi), ("Multi Select Menu\n".to_string(), expected, 2));
    assert_eq!(multi.get_title(), "Multi Select Menu");
    assert_eq!(multi.get_options().len(), 3);
    assert_eq!(multi.get_selected_index(), 2);
    assert_eq!(menu::MenuLike::get_title(&multi), "Multi Select Menu");
    assert_eq!(menu::MenuLike::get_menu(&single).get_selector(), "=> ");
}

#[test]
fn taking_over_and_giving_back_are_the_same_for_every_menu() {
    let single = menu::Menu::default();
    let multi = menu::MultiMenu::default();
    let setup = vec![menu::DrawOp::EnableRawMode, menu::DrawOp::HideCursor];
    let restore = vec![
        menu::DrawOp::DisableRawMode,
        menu::DrawOp::ClearScreen,
        menu::DrawOp::MoveTo(0, 0),
        menu::DrawOp::ShowCursor,
    ];
    assert_eq!(single.setup_console(), setup);
    assert_eq!(multi.setup_console(), setup);
    assert_eq!(single.restore_console(), restore);
    assert_eq!(multi.restore_console(), restore);
    assert_eq!(menu::MenuLike::restore_console(&multi), restore);
    assert_eq!(menu::MenuLike::setup_console(&single), setup);
}
