use termplay::app::App;
use termplay::cursor::cursor_cell;
use termplay::focus::{Focused, PlayerButton};

#[test]
fn cursor_sits_behind_the_text() {
    assert_eq!(cursor_cell(0, 0, 0), (1, 1));
    assert_eq!(cursor_cell(10, 5, 3), (14, 6));
    assert_eq!(cursor_cell(1, 1, 43), (45, 2));
}

#[test]
fn cursor_stops_at_the_largest_coordinate() {
    assert_eq!(cursor_cell(65000, 0, 534), (65535, 1));
    assert_eq!(cursor_cell(65000, 0, 535), (65535, 1));
    assert_eq!(cursor_cell(65000, 0, 1000), (65535, 1));
    assert_eq!(cursor_cell(65535, 65535, 0), (65535, 65535));
    assert_eq!(cursor_cell(0, 65534, usize::MAX), (65535, 65535));
    assert_eq!(cursor_cell(0, 0, 65534), (65535, 1));
    assert_eq!(cursor_cell(0, 0, 65533), (65534, 1));
}

#[test]
fn cursor_follows_narrow_text() {
    let app = App { input: "abc".to_string(), focused: Focused::Input };
    assert_eq!(app.cursor(2, 3), Some((6, 4)));
    let empty = App { input: String::new(), focused: Focused::Input };
    assert_eq!(empty.cursor(2, 3), Some((3, 4)));
}

#[test]
fn cursor_counts_columns_not_characters() {
    let wide = App { input: "日本".to_string(), focused: Focused::Input };
    assert_eq!(wide.cursor(0, 0), Some((5, 1)));
    let accented = App { input: "e\u{301}".to_string(), focused: Focused::Input };
    assert_eq!(accented.cursor(0, 0), Some((2, 1)));
}

#[test]
fn cursor_is_hidden_outside_the_text_field() {
    for button in [PlayerButton::PlayPause, PlayerButton::Stop] {
        let app = App { input: "abc".to_string(), focused: Focused::Player(button) };
        assert_eq!(app.cursor(2, 3), None);
    }
}

#[test]
fn cursor_of_the_startup_state() {
    assert_eq!(App::new().cursor(1, 1), Some((45, 2)));
}
