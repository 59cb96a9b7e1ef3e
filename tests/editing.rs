use tabedit::editor::App;
use tabedit::model::{Key, Step};

fn content(app: &App, row: usize) -> String {
    app.tabs[row][2..].iter().collect()
}

fn track(app: &App, row: usize) -> String {
    app.tabs[row].iter().collect()
}

fn type_str(app: &mut App, s: &str) {
    for c in s.chars() {
        app.type_char(c);
    }
}

fn snapshot(app: &App) -> (Vec<Vec<char>>, u16, u16, u16) {
    (app.tabs.clone(), app.pos_y, app.pos_x, app.old_y)
}

#[test]
fn new_grid_has_six_labelled_empty_tracks() {
    let app = App::new();
    let labels = ["e|", "B|", "G|", "D|", "A|", "E|"];
    assert_eq!(app.tabs.len(), 6);
    for (i, l) in labels.iter().enumerate() {
        assert_eq!(track(&app, i), *l);
    }
    assert_eq!(app.width(), 0);
    assert_eq!((app.pos_y, app.pos_x, app.old_y), (0, 0, 0));
}

#[test]
fn typing_three_dash_two_on_top_row() {
    let mut app = App::new();
    type_str(&mut app, "3-2");
    assert_eq!(content(&app, 0), "3-2");
    for row in 1..6 {
        assert_eq!(content(&app, row), "---");
    }
    assert_eq!(app.pos_x, 3);
    assert_eq!(app.width(), 3);
}

#[test]
fn two_backspaces_after_three_dash_two() {
    let mut app = App::new();
    type_str(&mut app, "3-2");
    app.backspace();
    app.backspace();
    assert_eq!(content(&app, 0), "3");
    for row in 0..6 {
        assert_eq!(app.tabs[row].len(), 3);
    }
    for row in 1..6 {
        assert_eq!(content(&app, row), "-");
    }
    assert_eq!(app.pos_x, 1);
}

#[test]
fn shift_right_at_first_column_of_width_three() {
    let mut app = App::new();
    type_str(&mut app, "123");
    app.move_left();
    app.move_left();
    app.move_left();
    assert_eq!(app.pos_x, 0);
    app.widen_right();
    assert_eq!(app.width(), 4);
    assert_eq!(app.pos_x, 1);
    assert_eq!(content(&app, 0), "1-23");
    for row in 1..6 {
        assert_eq!(content(&app, row), "----");
    }
}

#[test]
fn shift_right_blocked_at_last_content_column() {
    let mut app = App::new();
    type_str(&mut app, "12");
    app.move_left();
    let before = snapshot(&app);
    app.widen_right();
    assert_eq!(snapshot(&app), before);
    app.move_left();
    app.widen_right();
    assert_eq!(content(&app, 0), "1-2");
    assert_eq!(app.pos_x, 1);
}

#[test]
fn shift_left_inserts_filler_at_cursor() {
    let mut app = App::new();
    type_str(&mut app, "12");
    app.move_left();
    app.widen_left();
    assert_eq!(content(&app, 0), "1-2");
    assert_eq!(content(&app, 3), "---");
    assert_eq!(app.pos_x, 1);
}

#[test]
fn clamped_moves_change_nothing() {
    let mut app = App::new();
    type_str(&mut app, "45");
    app.move_left();
    app.move_left();
    let before = snapshot(&app);
    app.move_up();
    app.move_up();
    app.move_left();
    app.move_left();
    assert_eq!(snapshot(&app), before);
    for _ in 0..5 {
        app.move_down();
    }
    assert_eq!(app.pos_y, 5);
    let bottom = snapshot(&app);
    app.move_down();
    app.move_down();
    assert_eq!(snapshot(&app), bottom);
}

#[test]
fn moves_step_by_one() {
    let mut app = App::new();
    type_str(&mut app, "123");
    app.move_down();
    app.move_down();
    assert_eq!(app.pos_y, 2);
    app.move_up();
    assert_eq!(app.pos_y, 1);
    app.move_left();
    app.move_left();
    assert_eq!(app.pos_x, 1);
    app.move_right();
    assert_eq!(app.pos_x, 2);
    app.move_right();
    assert_eq!(app.pos_x, 2);
}

#[test]
fn right_on_empty_grid_does_nothing() {
    let mut app = App::new();
    app.move_right();
    assert_eq!(app.pos_x, 0);
    app.widen_right();
    assert_eq!(app.width(), 0);
}

#[test]
fn widen_then_backspace_restores_tracks() {
    let mut app = App::new();
    type_str(&mut app, "7|9");
    app.move_down();
    app.move_left();
    app.move_left();
    let before = snapshot(&app);
    app.widen_left();
    assert_eq!(app.width(), 4);
    app.backspace();
    assert_eq!(snapshot(&app), before);
}

#[test]
fn typing_at_end_on_third_row() {
    let mut app = App::new();
    app.move_down();
    app.move_down();
    app.type_char('x');
    assert_eq!(track(&app, 2), "G|x");
    for (row, l) in [(0, "e|-"), (1, "B|-"), (3, "D|-"), (4, "A|-"), (5, "E|-")] {
        assert_eq!(track(&app, row), l);
    }
    assert_eq!(app.pos_x, 1);
}

#[test]
fn typing_separator_at_end_copies_it_everywhere() {
    let mut app = App::new();
    app.move_down();
    app.move_down();
    app.type_char('|');
    for row in 0..6 {
        assert_eq!(content(&app, row), "|");
    }
}

#[test]
fn space_types_filler() {
    let mut app = App::new();
    app.type_char(' ');
    assert_eq!(content(&app, 0), "-");
    app.move_left();
    app.move_down();
    app.type_char('5');
    app.move_left();
    app.type_char(' ');
    assert_eq!(content(&app, 1), "-");
}

#[test]
fn typing_inside_content_overwrites_one_character() {
    let mut app = App::new();
    type_str(&mut app, "1234");
    app.move_down();
    app.move_left();
    app.move_left();
    app.move_left();
    let before = app.tabs.clone();
    app.type_char('9');
    assert_eq!(content(&app, 1), "-9--");
    for row in [0, 2, 3, 4, 5] {
        assert_eq!(app.tabs[row], before[row]);
    }
    assert_eq!(app.width(), 4);
    assert_eq!(app.pos_x, 2);
}

#[test]
fn backspace_inside_content_keeps_cursor() {
    let mut app = App::new();
    type_str(&mut app, "abc");
    app.move_left();
    app.move_left();
    app.backspace();
    assert_eq!(content(&app, 0), "ac");
    assert_eq!(content(&app, 5), "--");
    assert_eq!(app.pos_x, 1);
}

#[test]
fn backspace_on_empty_grid_does_nothing() {
    let mut app = App::new();
    let before = snapshot(&app);
    app.backspace();
    assert_eq!(snapshot(&app), before);
}

#[test]
fn tracks_stay_aligned() {
    let mut app = App::new();
    type_str(&mut app, "0 1|2");
    app.move_down();
    app.move_left();
    app.widen_left();
    app.type_char('3');
    app.backspace();
    app.move_down();
    app.widen_right();
    let n = app.tabs[0].len();
    for row in 0..6 {
        assert_eq!(app.tabs[row].len(), n);
    }
    assert!((app.pos_x as usize) <= n - 2);
}

#[test]
fn key_outcomes() {
    let mut app = App::new();
    assert_eq!(app.handle_key(Key::Esc), Step::Quit);
    assert_eq!(app.handle_key(Key::Other), Step::Idle);
    assert_eq!(app.handle_key(Key::Char('4')), Step::Redraw);
    assert_eq!(app.handle_key(Key::Down), Step::Redraw);
    assert_eq!(app.handle_key(Key::ShiftLeft), Step::Redraw);
    assert_eq!(content(&app, 1), "--");
    assert_eq!(content(&app, 0), "4-");
    assert_eq!(app.handle_key(Key::Backspace), Step::Redraw);
    assert_eq!(content(&app, 0), "4");
    assert_eq!(app.pos_y, 1);
    assert_eq!(app.pos_x, 1);
}
