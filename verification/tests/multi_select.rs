use menu::{Color, Direction, DrawOp, KeyCode, KeyPress, MultiMenu, Phase, Size, ValidationError};
use std::collections::HashSet;

fn texts(list: &[&str]) -> Vec<String> {
    list.iter().map(|text| text.to_string()).collect()
}

fn rows(list: &[usize]) -> HashSet<usize> {
    list.iter().copied().collect()
}

fn room() -> Option<Size> {
    Some(Size { rows: 24, cols: 80 })
}

fn abc(selected_index: usize, checked: &[usize]) -> MultiMenu {
    MultiMenu::validated(
        "Pick".to_string(),
        texts(&["A", "B", "C"]),
        selected_index,
        " > ".to_string(),
        rows(checked),
        " * ".to_string(),
        room(),
    )
    .unwrap()
}

fn colored(selected_index: usize, checked: &[usize]) -> MultiMenu {
    let mut menu = abc(selected_index, checked);
    menu.set_selected_foreground_color(Color::Blue);
    menu.set_selected_background_color(Color::Black);
    menu.set_selected_option_foreground_color(Color::Yellow);
    menu.set_selected_option_background_color(Color::Grey);
    menu.set_selected_selected_option_foreground_color(Color::Green);
    menu.set_selected_selected_option_background_color(Color::Red);
    menu
}

fn print(text: &str) -> DrawOp {
    DrawOp::Print(text.to_string())
}

fn restore() -> Vec<DrawOp> {
    vec![DrawOp::DisableRawMode, DrawOp::ClearScreen, DrawOp::MoveTo(0, 0), DrawOp::ShowCursor]
}

fn space() -> KeyPress {
    KeyPress::plain(KeyCode::Char(' '))
}

#[test]
fn space_down_space_enter_confirms_the_first_two_rows() {
    let mut menu = abc(0, &[]);
    let keys = vec![
        space(),
        KeyPress::plain(KeyCode::Down),
        space(),
        KeyPress::plain(KeyCode::Enter),
    ];
    let outcome = menu.run(&keys);
    assert_eq!(outcome.phase, Phase::Done);
    assert_eq!(outcome.result, Some(rows(&[0, 1])));
    assert_eq!(menu.get_selected_options(), &rows(&[0, 1]));
}

#[test]
fn confirming_with_nothing_checked_gives_no_selection() {
    let mut menu = abc(0, &[]);
    let outcome = menu.run(&vec![KeyPress::plain(KeyCode::Enter)]);
    assert_eq!(outcome.phase, Phase::Done);
    assert_eq!(outcome.result, None);
    let mut menu = abc(0, &[1]);
    let keys = vec![KeyPress::plain(KeyCode::Down), space(), KeyPress::plain(KeyCode::Enter)];
    let outcome = menu.run(&keys);
    assert_eq!(outcome.result, None);
    assert_eq!(menu.on_break(), None);
}

#[test]
fn escape_forgets_what_was_checked() {
    let mut menu = abc(2, &[0, 2]);
    let keys = vec![space(), KeyPress::plain(KeyCode::Up), space(), KeyPress::plain(KeyCode::Esc)];
    let outcome = menu.run(&keys);
    assert_eq!(outcome.phase, Phase::Done);
    assert_eq!(outcome.result, None);
    let count = outcome.ops.len();
    assert_eq!(outcome.ops[count - 4..].to_vec(), restore());
}

#[test]
fn the_interrupt_aborts_a_multi_select_session() {
    let mut menu = abc(2, &[0, 2]);
    let outcome = menu.on_key(KeyPress::with_control(KeyCode::Char('c')));
    assert_eq!(outcome.phase, Phase::Aborted);
    assert_eq!(outcome.result, None);
    assert_eq!(outcome.ops, restore());
}

#[test]
fn toggling_twice_restores_the_checked_rows() {
    for checked in [rows(&[]), rows(&[1]), rows(&[0, 2]), rows(&[0, 1, 2])] {
        let list: Vec<usize> = checked.iter().copied().collect();
        let mut menu = abc(1, &list);
        let first = menu.toggle_checked();
        assert_eq!(first, !checked.contains(&1));
        assert_eq!(menu.is_checked(1), first);
        let second = menu.toggle_checked();
        assert_eq!(second, checked.contains(&1));
        assert_eq!(menu.get_selected_options(), &checked);
        menu.on_space_key();
        menu.on_space_key();
        assert_eq!(menu.get_selected_options(), &checked);
    }
}

#[test]
fn the_result_is_a_copy_of_the_checked_rows() {
    let mut menu = abc(1, &[0, 2]);
    let outcome = menu.on_key(KeyPress::plain(KeyCode::Enter));
    assert_eq!(outcome.result, Some(rows(&[0, 2])));
    assert_eq!(outcome.ops, restore());
    assert_eq!(menu.get_selected_options(), &rows(&[0, 2]));
    assert_eq!(menu::multi::copy_set(&rows(&[4, 9])), rows(&[4, 9]));
}

#[test]
fn selector_glyphs_of_different_lengths_are_refused_first() {
    let made = MultiMenu::validated(
        "T".to_string(),
        texts(&["A"]),
        9,
        "> ".to_string(),
        rows(&[7]),
        "*".to_string(),
        None,
    );
    assert_eq!(made.err(), Some(ValidationError::SelectorLengthMismatch));
    let made = MultiMenu::new(
        "T".to_string(),
        texts(&["A"]),
        0,
        "> ".to_string(),
        rows(&[]),
        "ä".to_string(),
        false,
    );
    assert!(!matches!(made, Err(ValidationError::SelectorLengthMismatch)));
}

#[test]
fn a_highlight_beyond_the_list_is_refused_before_a_checked_index() {
    let made = MultiMenu::new(
        "T".to_string(),
        texts(&["A", "B", "C"]),
        5,
        "> ".to_string(),
        rows(&[7]),
        "* ".to_string(),
        false,
    );
    assert_eq!(made.err(), Some(ValidationError::SelectedIndexOutOfRange(5)));
}

#[test]
fn a_checked_index_beyond_the_list_is_refused() {
    let made = MultiMenu::new(
        "T".to_string(),
        texts(&["A", "B", "C"]),
        0,
        "> ".to_string(),
        rows(&[1, 3]),
        "* ".to_string(),
        false,
    );
    assert_eq!(made.err(), Some(ValidationError::CheckedIndexOutOfRange(3)));
    let made = MultiMenu::validated(
        "T".to_string(),
        texts(&["A", "B", "C"]),
        0,
        "> ".to_string(),
        rows(&[8, 9]),
        "* ".to_string(),
        room(),
    );
    assert!(matches!(
        made.err(),
        Some(ValidationError::CheckedIndexOutOfRange(8))
            | Some(ValidationError::CheckedIndexOutOfRange(9))
    ));
    assert_eq!(menu::multi::find_out_of_range(&rows(&[0, 1, 2]), 3), None);
    assert_eq!(menu::multi::find_out_of_range(&rows(&[0, 1, 2]), 2), Some(2));
}

#[test]
fn the_layout_is_examined_as_for_a_single_select_menu() {
    let narrow = Some(Size { rows: 24, cols: 3 });
    let made = MultiMenu::validated(
        "T".to_string(),
        texts(&["A", "BB"]),
        0,
        "> ".to_string(),
        rows(&[1]),
        "* ".to_string(),
        narrow,
    );
    assert_eq!(made.err(), Some(ValidationError::OptionTooLong(1)));
    let made = MultiMenu::validated(
        "T".to_string(),
        texts(&["A", "B"]),
        0,
        "> ".to_string(),
        rows(&[1]),
        "* ".to_string(),
        None,
    );
    assert_eq!(made.err(), Some(ValidationError::TerminalSizeUnknown));
    let low = Some(Size { rows: 3, cols: 80 });
    let made = MultiMenu::validated(
        "T".to_string(),
        texts(&["A", "B"]),
        0,
        "> ".to_string(),
        rows(&[1]),
        "* ".to_string(),
        low,
    );
    assert_eq!(made.err(), Some(ValidationError::MenuTooTall));
}

#[test]
fn the_bypass_accepts_anything() {
    let menu = MultiMenu::new(
        "T".to_string(),
        texts(&["A"]),
        4,
        "> ".to_string(),
        rows(&[7]),
        "*".to_string(),
        true,
    )
    .unwrap();
    assert!(!menu.is_well_formed());
    assert_eq!(menu.get_menu().get_selected_index(), 4);
    assert_eq!(menu.get_selected_options(), &rows(&[7]));
    let menu = MultiMenu::new(
        "T".to_string(),
        texts(&["A"]),
        0,
        "> ".to_string(),
        rows(&[7]),
        "*".to_string(),
        true,
    )
    .unwrap();
    assert!(!menu.is_well_formed());
}

#[test]
fn the_full_repaint_styles_each_kind_of_row() {
    let menu = colored(1, &[1, 2]);
    let expected = vec![
        DrawOp::ClearScreen,
        DrawOp::MoveTo(0, 0),
        print("Pick\n"),
        DrawOp::MoveRight(3),
        print("A"),
        DrawOp::MoveToNextLine(1),
        DrawOp::SetForeground(Color::Green),
        DrawOp::SetBackground(Color::Red),
        print(" > "),
        print("B"),
        DrawOp::MoveToNextLine(1),
        DrawOp::ResetColor,
        DrawOp::SetForeground(Color::Yellow),
        DrawOp::SetBackground(Color::Grey),
        print(" * "),
        print("C"),
        DrawOp::MoveToNextLine(1),
        DrawOp::ResetColor,
        DrawOp::MoveTo(0, 2),
    ];
    assert_eq!(menu.display(), expected);
    let mut started = vec![DrawOp::EnableRawMode, DrawOp::HideCursor];
    started.extend(expected);
    assert_eq!(menu.start(), started);
}

#[test]
fn the_highlighted_row_is_plainly_highlighted_where_it_is_not_checked() {
    let menu = colored(0, &[]);
    let ops = menu.display();
    assert_eq!(
        ops[3..9].to_vec(),
        vec![
            DrawOp::SetForeground(Color::Blue),
            DrawOp::SetBackground(Color::Black),
            print(" > "),
            print("A"),
            DrawOp::MoveToNextLine(1),
            DrawOp::ResetColor,
        ]
    );
}

#[test]
fn a_move_down_from_a_checked_row_onto_a_plain_one() {
    let mut menu = colored(0, &[0]);
    let ops = menu.on_down_key();
    assert_eq!(menu.get_menu().get_selected_index(), 1);
    let expected = vec![
        DrawOp::ClearLine,
        DrawOp::SetForeground(Color::Yellow),
        DrawOp::SetBackground(Color::Grey),
        print(" * "),
        print("A"),
        DrawOp::ResetColor,
        DrawOp::MoveToNextLine(1),
        DrawOp::ClearLine,
        DrawOp::SetForeground(Color::Blue),
        DrawOp::SetBackground(Color::Black),
        print(" > "),
        print("B"),
        DrawOp::ResetColor,
        DrawOp::MoveToColumn(1),
    ];
    assert_eq!(ops, expected);
    assert_eq!(
        menu.move_with_direction(Direction::Down, "A".to_string(), "B".to_string()),
        expected
    );
}

#[test]
fn a_move_up_from_a_plain_row_onto_a_checked_one() {
    let mut menu = colored(2, &[1]);
    let ops = menu.on_up_key();
    assert_eq!(menu.get_menu().get_selected_index(), 1);
    let expected = vec![
        DrawOp::ClearLine,
        DrawOp::MoveRight(3),
        print("C"),
        DrawOp::MoveToPreviousLine(1),
        DrawOp::ClearLine,
        DrawOp::SetForeground(Color::Green),
        DrawOp::SetBackground(Color::Red),
        print(" > "),
        print("B"),
        DrawOp::ResetColor,
        DrawOp::MoveToColumn(1),
    ];
    assert_eq!(ops, expected);
}

#[test]
fn moves_at_the_ends_of_the_list_do_nothing() {
    let mut menu = colored(0, &[0]);
    assert!(menu.on_up_key().is_empty());
    assert_eq!(menu.get_menu().get_selected_index(), 0);
    let mut menu = colored(2, &[0]);
    assert!(menu.on_down_key().is_empty());
    assert_eq!(menu.get_menu().get_selected_index(), 2);
    assert_eq!(menu.get_selected_options(), &rows(&[0]));
}

#[test]
fn checking_repaints_the_highlighted_row_only() {
    let mut menu = colored(1, &[]);
    let ops = menu.on_space_key();
    let checked = vec![
        DrawOp::ClearLine,
        DrawOp::SetForeground(Color::Green),
        DrawOp::SetBackground(Color::Red),
        print(" > "),
        print("B"),
        DrawOp::ResetColor,
        DrawOp::MoveToColumn(1),
    ];
    assert_eq!(ops, checked);
    assert_eq!(menu.get_selected_options(), &rows(&[1]));
    let ops = menu.on_space_key();
    let unchecked = vec![
        DrawOp::ClearLine,
        DrawOp::SetForeground(Color::Blue),
        DrawOp::SetBackground(Color::Black),
        print(" > "),
        print("B"),
        DrawOp::ResetColor,
        DrawOp::MoveToColumn(1),
    ];
    assert_eq!(ops, unchecked);
    assert_eq!(menu.get_selected_options(), &rows(&[]));
}

#[test]
fn every_state_of_a_long_session_is_well_formed() {
    let mut menu = abc(1, &[2]);
    for round in 0..60 {
        let key = match round % 5 {
            0 | 1 => KeyPress::plain(KeyCode::Down),
            2 => space(),
            3 => KeyPress::plain(KeyCode::Up),
            _ => KeyPress::plain(KeyCode::Other),
        };
        let outcome = menu.on_key(key);
        assert_eq!(outcome.phase, Phase::Running);
        assert!(menu.is_well_formed());
        assert!(menu.get_menu().get_selected_index() < 3);
        assert!(menu.get_selected_options().iter().all(|row| *row < 3));
    }
}

#[test]
fn a_multi_select_run_draws_what_its_steps_draw() {
    let mut whole = colored(0, &[2]);
    let mut stepwise = colored(0, &[2]);
    let keys = vec![
        space(),
        KeyPress::plain(KeyCode::Down),
        KeyPress::plain(KeyCode::Down),
        space(),
        KeyPress::plain(KeyCode::Enter),
        space(),
    ];
    let mut expected = stepwise.start();
    for key in &keys[..5] {
        expected.extend(stepwise.on_key(*key).ops);
    }
    let outcome = whole.run(&keys);
    assert_eq!(outcome.ops, expected);
    assert_eq!(outcome.result, Some(rows(&[0])));
    assert_eq!(outcome.phase, Phase::Done);
}

#[test]
fn the_default_multi_select_menu() {
    let menu = MultiMenu::default();
    assert!(menu.is_well_formed());
    assert_eq!(menu.get_menu().get_title(), "Multi Select Menu");
    assert_eq!(menu.get_menu().get_selector(), "=> ");
    assert!(menu.get_selected_options().is_empty());
    let ops = menu.display();
    assert_eq!(ops[2], print("Multi Select Menu\n"));
    assert_eq!(ops[3], DrawOp::SetForeground(Color::Reset));
}

#[test]
fn multi_select_setters_replace_one_part_each() {
    let mut menu = MultiMenu::default();
    menu.title("T".to_string());
    menu.options(texts(&["x", "y"]));
    menu.selector("> ".to_string());
    menu.selected_selector("* ".to_string());
    menu.selected_index(1);
    menu.selected_options(rows(&[0, 1, 2, 9]));
    assert_eq!(menu.get_selected_options(), &rows(&[0, 1]));
    assert_eq!(menu::multi::keep_below(&rows(&[0, 5, 6]), 6), rows(&[0, 5]));
    menu.selected_foreground_color(Color::Red);
    menu.selected_background_color(Color::Blue);
    menu.selected_option_foreground_color(Color::Cyan);
    menu.selected_option_background_color(Color::Magenta);
    menu.selected_selected_option_foreground_color(Color::AnsiValue(7));
    menu.selected_selected_option_background_color(Color::DarkGrey);
    let expected = vec![
        DrawOp::ClearScreen,
        DrawOp::MoveTo(0, 0),
        print("T\n"),
        DrawOp::SetForeground(Color::Cyan),
        DrawOp::SetBackground(Color::Magenta),
        print("* "),
        print("x"),
        DrawOp::MoveToNextLine(1),
        DrawOp::ResetColor,
        DrawOp::SetForeground(Color::AnsiValue(7)),
        DrawOp::SetBackground(Color::DarkGrey),
        print("> "),
        print("y"),
        DrawOp::MoveToNextLine(1),
        DrawOp::ResetColor,
        DrawOp::MoveTo(0, 2),
    ];
    assert_eq!(menu.display(), expected);
    menu.selected_index(5);
    assert_eq!(menu.get_menu().get_selected_index(), 0);
    menu.on_space_key();
    let ops = menu.display();
    assert_eq!(ops[3], DrawOp::SetForeground(Color::Red));
    assert_eq!(ops[4], DrawOp::SetBackground(Color::Blue));
}
