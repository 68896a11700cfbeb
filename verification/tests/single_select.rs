use menu::{
    Color, Direction, DrawOp, KeyCode, KeyPress, Menu, Phase, Size, ValidationError,
};

fn texts(list: &[&str]) -> Vec<String> {
    list.iter().map(|text| text.to_string()).collect()
}

fn abc(selected_index: usize) -> Menu {
    Menu::validated(
        "Pick".to_string(),
        texts(&["A", "B", "C"]),
        selected_index,
        "> ".to_string(),
        Some(Size { rows: 24, cols: 80 }),
    )
    .unwrap()
}

fn print(text: &str) -> DrawOp {
    DrawOp::Print(text.to_string())
}

fn restore() -> Vec<DrawOp> {
    vec![DrawOp::DisableRawMode, DrawOp::ClearScreen, DrawOp::MoveTo(0, 0), DrawOp::ShowCursor]
}

#[test]
fn down_down_enter_confirms_the_third_row() {
    let mut menu = abc(0);
    let keys = vec![
        KeyPress::plain(KeyCode::Down),
        KeyPress::plain(KeyCode::Down),
        KeyPress::plain(KeyCode::Enter),
    ];
    let outcome = menu.run(&keys);
    assert_eq!(outcome.phase, Phase::Done);
    assert_eq!(outcome.result, Some(2));
    assert_eq!(menu.get_selected_index(), 2);
}

#[test]
fn escape_leaves_without_a_selection_and_restores_the_terminal() {
    let mut menu =
        Menu::new("T".to_string(), texts(&["A", "B"]), 0, "> ".to_string(), true).unwrap();
    let outcome = menu.run(&vec![KeyPress::plain(KeyCode::Esc)]);
    assert_eq!(outcome.phase, Phase::Done);
    assert_eq!(outcome.result, None);
    let count = outcome.ops.len();
    assert_eq!(outcome.ops[count - 4..].to_vec(), restore());
    assert_eq!(outcome.ops[0], DrawOp::EnableRawMode);
    assert_eq!(outcome.ops[1], DrawOp::HideCursor);
}

#[test]
fn an_index_beyond_the_list_is_refused() {
    let made = Menu::new("T".to_string(), texts(&["A", "B", "C"]), 5, "> ".to_string(), false);
    assert_eq!(made.err(), Some(ValidationError::SelectedIndexOutOfRange(5)));
    let made = Menu::validated(
        "T".to_string(),
        texts(&["A", "B", "C"]),
        3,
        "> ".to_string(),
        Some(Size { rows: 24, cols: 80 }),
    );
    assert_eq!(made.err(), Some(ValidationError::SelectedIndexOutOfRange(3)));
}

#[test]
fn an_empty_list_is_refused() {
    let made = Menu::new("T".to_string(), Vec::new(), 0, "> ".to_string(), false);
    assert_eq!(made.err(), Some(ValidationError::SelectedIndexOutOfRange(0)));
}

#[test]
fn the_bypass_skips_every_examination() {
    let menu = Menu::new("T".to_string(), texts(&["A\n", "B"]), 7, "> ".to_string(), true).unwrap();
    assert_eq!(menu.get_selected_index(), 7);
    assert!(!menu.is_well_formed());
    assert_eq!(menu.get_options(), &texts(&["A\n", "B"]));
}

#[test]
fn construction_against_the_real_terminal_never_panics() {
    let made = Menu::new("T".to_string(), texts(&["A", "B"]), 1, "> ".to_string(), false);
    match made {
        Ok(menu) => {
            assert!(menu.is_well_formed());
            assert_eq!(menu.get_selected_index(), 1);
        }
        Err(error) => assert!(matches!(
            error,
            ValidationError::TerminalSizeUnknown
                | ValidationError::TitleTooLong
                | ValidationError::OptionTooLong(_)
                | ValidationError::MenuTooTall
        )),
    }
}

#[test]
fn an_unknown_terminal_size_is_an_error() {
    let made = Menu::validated("T".to_string(), texts(&["A"]), 0, "> ".to_string(), None);
    assert_eq!(made.err(), Some(ValidationError::TerminalSizeUnknown));
}

#[test]
fn a_title_wider_than_the_terminal_is_refused() {
    let size = Some(Size { rows: 24, cols: 4 });
    let made = Menu::validated("Title".to_string(), texts(&["A"]), 0, ">".to_string(), size);
    assert_eq!(made.err(), Some(ValidationError::TitleTooLong));
    let made = Menu::validated("Titl".to_string(), texts(&["A"]), 0, ">".to_string(), size);
    assert!(made.is_ok());
}

#[test]
fn the_title_is_measured_in_bytes() {
    let size = Some(Size { rows: 24, cols: 4 });
    let made = Menu::validated("äöü".to_string(), texts(&["A"]), 0, ">".to_string(), size);
    assert_eq!(made.err(), Some(ValidationError::TitleTooLong));
}

#[test]
fn the_first_faulty_option_is_reported() {
    let size = Some(Size { rows: 24, cols: 6 });
    let made =
        Menu::validated("T".to_string(), texts(&["ok", "long!", "a\nb"]), 0, "> ".to_string(), size);
    assert_eq!(made.err(), Some(ValidationError::OptionTooLong(1)));
    let made =
        Menu::validated("T".to_string(), texts(&["ok", "a\nb", "long!"]), 0, "> ".to_string(), size);
    assert_eq!(made.err(), Some(ValidationError::OptionContainsNewLine(1)));
    let made =
        Menu::validated("T".to_string(), texts(&["a\tb", "a\nb"]), 0, "> ".to_string(), size);
    assert_eq!(made.err(), Some(ValidationError::OptionContainsTab(0)));
    let made =
        Menu::validated("T".to_string(), texts(&["a\n\tb"]), 0, "> ".to_string(), size);
    assert_eq!(made.err(), Some(ValidationError::OptionContainsNewLine(0)));
    let made =
        Menu::validated("T".to_string(), texts(&["1234"]), 0, "> ".to_string(), size);
    assert!(made.is_ok());
    let made =
        Menu::validated("T".to_string(), texts(&["12345"]), 0, "> ".to_string(), size);
    assert_eq!(made.err(), Some(ValidationError::OptionTooLong(0)));
}

#[test]
fn a_menu_taller_than_the_terminal_is_refused() {
    let fits = Some(Size { rows: 6, cols: 80 });
    let made = Menu::validated("a\nb".to_string(), texts(&["A", "B", "C"]), 0, ">".to_string(), fits);
    assert!(made.is_ok());
    let short = Some(Size { rows: 5, cols: 80 });
    let made =
        Menu::validated("a\nb".to_string(), texts(&["A", "B", "C"]), 0, ">".to_string(), short);
    assert_eq!(made.err(), Some(ValidationError::MenuTooTall));
    let tiny = Some(Size { rows: 1, cols: 80 });
    let made = Menu::validated("a".to_string(), texts(&["A"]), 0, ">".to_string(), tiny);
    assert_eq!(made.err(), Some(ValidationError::MenuTooTall));
}

#[test]
fn the_full_repaint_is_exact() {
    let mut menu = abc(1);
    menu.set_selected_foreground_color(Color::Yellow);
    menu.set_selected_background_color(Color::Blue);
    let expected = vec![
        DrawOp::ClearScreen,
        DrawOp::MoveTo(0, 0),
        print("Pick\n"),
        DrawOp::MoveRight(2),
        print("A"),
        DrawOp::MoveToNextLine(1),
        DrawOp::SetForeground(Color::Yellow),
        DrawOp::SetBackground(Color::Blue),
        print("> "),
        print("B"),
        DrawOp::MoveToNextLine(1),
        DrawOp::ResetColor,
        DrawOp::MoveRight(2),
        print("C"),
        DrawOp::MoveToNextLine(1),
        DrawOp::MoveTo(0, 2),
    ];
    assert_eq!(menu.display(), expected);
}

#[test]
fn the_cursor_returns_below_a_title_of_several_lines() {
    let menu = Menu::validated(
        "one\ntwo\nthree".to_string(),
        texts(&["A", "B", "C"]),
        2,
        "> ".to_string(),
        Some(Size { rows: 24, cols: 80 }),
    )
    .unwrap();
    assert_eq!(menu.highlighted_screen_row(), 5);
    assert_eq!(menu.display().last(), Some(&DrawOp::MoveTo(0, 5)));
    assert_eq!(menu.format_title(), "one\ntwo\nthree\n");
}

#[test]
fn starting_takes_the_terminal_over_and_paints() {
    let menu = abc(0);
    let mut expected = vec![DrawOp::EnableRawMode, DrawOp::HideCursor];
    expected.extend(menu.display());
    assert_eq!(menu.start(), expected);
    assert_eq!(menu::menu_like::setup_console(), vec![DrawOp::EnableRawMode, DrawOp::HideCursor]);
    assert_eq!(menu::menu_like::restore_console(), restore());
}

#[test]
fn a_move_down_repaints_two_rows() {
    let mut menu = abc(0);
    let ops = menu.on_down_key();
    assert_eq!(menu.get_selected_index(), 1);
    let expected = vec![
        DrawOp::ClearLine,
        DrawOp::MoveRight(2),
        print("A"),
        DrawOp::MoveToNextLine(1),
        DrawOp::ClearLine,
        DrawOp::SetForeground(Color::White),
        DrawOp::SetBackground(Color::Black),
        print("> "),
        print("B"),
        DrawOp::MoveToColumn(1),
        DrawOp::ResetColor,
    ];
    assert_eq!(ops, expected);
}

#[test]
fn a_move_up_repaints_two_rows() {
    let mut menu = abc(2);
    let ops = menu.on_up_key();
    assert_eq!(menu.get_selected_index(), 1);
    let expected = vec![
        DrawOp::ClearLine,
        DrawOp::MoveRight(2),
        print("C"),
        DrawOp::MoveToPreviousLine(1),
        DrawOp::ClearLine,
        DrawOp::SetForeground(Color::White),
        DrawOp::SetBackground(Color::Black),
        print("> "),
        print("B"),
        DrawOp::MoveToColumn(1),
        DrawOp::ResetColor,
    ];
    assert_eq!(ops, expected);
    assert_eq!(
        menu.move_with_direction(Direction::Up, "C".to_string(), "B".to_string()),
        expected
    );
}

#[test]
fn up_at_the_first_row_and_down_at_the_last_do_nothing() {
    let mut menu = abc(0);
    assert!(menu.on_up_key().is_empty());
    assert_eq!(menu.get_selected_index(), 0);
    assert_eq!(menu.move_highlight(Direction::Up), None);
    let mut menu = abc(2);
    assert!(menu.on_down_key().is_empty());
    assert_eq!(menu.get_selected_index(), 2);
    assert_eq!(menu.move_highlight(Direction::Down), None);
    assert_eq!(menu.move_highlight(Direction::Up), Some((2, 1)));
}

#[test]
fn the_highlight_never_leaves_the_list() {
    let mut menu = abc(1);
    let mut keys = Vec::new();
    for round in 0..40 {
        let code = if round % 7 < 4 { KeyCode::Down } else { KeyCode::Up };
        keys.push(KeyPress::plain(code));
    }
    for key in keys {
        let outcome = menu.on_key(key);
        assert_eq!(outcome.phase, Phase::Running);
        assert!(menu.get_selected_index() < 3);
        assert!(menu.is_well_formed());
    }
}

#[test]
fn space_and_other_keys_do_nothing_to_a_single_select_menu() {
    let mut menu = abc(1);
    for key in [
        KeyPress::plain(KeyCode::Char(' ')),
        KeyPress::plain(KeyCode::Char('x')),
        KeyPress::plain(KeyCode::Other),
        KeyPress::with_control(KeyCode::Up),
    ] {
        let outcome = menu.on_key(key);
        assert!(outcome.ops.is_empty());
        assert_eq!(outcome.phase, Phase::Running);
        assert_eq!(outcome.result, None);
        assert_eq!(menu.get_selected_index(), 1);
    }
    assert!(menu.on_space_key().is_empty());
}

#[test]
fn the_interrupt_aborts_and_restores_the_terminal() {
    let mut menu = abc(1);
    let outcome = menu.on_key(KeyPress::with_control(KeyCode::Char('c')));
    assert_eq!(outcome.phase, Phase::Aborted);
    assert_eq!(outcome.result, None);
    assert_eq!(outcome.ops, restore());
}

#[test]
fn enter_restores_the_terminal() {
    let mut menu = abc(1);
    let outcome = menu.on_key(KeyPress::plain(KeyCode::Enter));
    assert_eq!(outcome.phase, Phase::Done);
    assert_eq!(outcome.result, Some(1));
    assert_eq!(outcome.ops, restore());
    assert_eq!(menu.on_break(), Some(1));
}

#[test]
fn keys_after_the_end_of_a_session_are_not_read() {
    let mut menu = abc(0);
    let keys = vec![
        KeyPress::plain(KeyCode::Down),
        KeyPress::plain(KeyCode::Esc),
        KeyPress::plain(KeyCode::Down),
        KeyPress::plain(KeyCode::Enter),
    ];
    let outcome = menu.run(&keys);
    assert_eq!(outcome.phase, Phase::Done);
    assert_eq!(outcome.result, None);
    assert_eq!(menu.get_selected_index(), 1);
}

#[test]
fn a_session_without_an_ending_key_is_left_running() {
    let mut menu = abc(0);
    let outcome = menu.run(&vec![KeyPress::plain(KeyCode::Down)]);
    assert_eq!(outcome.phase, Phase::Running);
    assert_eq!(outcome.result, None);
    assert!(!outcome.ops.contains(&DrawOp::DisableRawMode));
    assert!(!outcome.ops.contains(&DrawOp::ShowCursor));
    let outcome = menu.run(&Vec::new());
    assert_eq!(outcome.phase, Phase::Running);
    assert_eq!(outcome.ops, menu.start());
}

#[test]
fn a_run_draws_what_its_steps_draw() {
    let mut whole = abc(0);
    let mut stepwise = abc(0);
    let keys = vec![
        KeyPress::plain(KeyCode::Down),
        KeyPress::plain(KeyCode::Up),
        KeyPress::plain(KeyCode::Up),
        KeyPress::plain(KeyCode::Down),
        KeyPress::plain(KeyCode::Enter),
    ];
    let mut expected = stepwise.start();
    for key in &keys {
        expected.extend(stepwise.on_key(*key).ops);
    }
    let outcome = whole.run(&keys);
    assert_eq!(outcome.ops, expected);
    assert_eq!(outcome.result, Some(1));
}

#[test]
fn setters_replace_one_part_each() {
    let mut menu = Menu::default();
    assert_eq!(menu.get_title(), "Single Select Menu");
    assert_eq!(menu.get_options(), &texts(&["Option 1", "Option 2", "Option 3"]));
    assert_eq!(menu.get_selector(), "=> ");
    assert_eq!(menu.get_selected_index(), 0);
    menu.title("Other".to_string());
    menu.options(texts(&["x", "y"]));
    menu.selector("* ".to_string());
    menu.selected_index(1);
    assert_eq!(menu.get_title(), "Other");
    assert_eq!(menu.get_options(), &texts(&["x", "y"]));
    assert_eq!(menu.get_selector(), "* ");
    assert_eq!(menu.get_selected_index(), 1);
    menu.selected_index(2);
    assert_eq!(menu.get_selected_index(), 0);
    menu.selected_foreground_color(Color::Red);
    menu.selected_background_color(Color::Rgb { r: 1, g: 2, b: 3 });
    let ops = menu.display();
    assert_eq!(ops[3], DrawOp::SetForeground(Color::Red));
    assert_eq!(ops[4], DrawOp::SetBackground(Color::Rgb { r: 1, g: 2, b: 3 }));
    assert_eq!(menu.format_option(1), "y");
}

#[test]
fn the_default_menu_is_drawn_in_the_terminal_colors() {
    let menu = Menu::default();
    assert!(menu.is_well_formed());
    let ops = menu.display();
    assert_eq!(ops[3], DrawOp::SetForeground(Color::Reset));
    assert_eq!(ops[4], DrawOp::SetBackground(Color::Reset));
    assert_eq!(ops[5], print("=> "));
    assert_eq!(ops[9], DrawOp::MoveRight(3));
}
