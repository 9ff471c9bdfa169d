use tuigui_x::cursor::CursorTracker;
use tuigui_x::grid::Position;

#[test]
fn cursor_starts_at_the_origin() {
    assert_eq!(CursorTracker::new().get(), Position { col: 0, row: 0 });
}

#[test]
fn cursor_five_advances_then_newline() {
    let mut cursor = CursorTracker::new();
    cursor.advance();
    cursor.advance();
    cursor.advance();
    cursor.advance();
    cursor.advance();
    assert_eq!(cursor.get(), Position { col: 5, row: 0 });
    cursor.newline();
    assert_eq!(cursor.get(), Position { col: 0, row: 1 });
}

#[test]
fn cursor_advance_keeps_the_row() {
    let mut cursor = CursorTracker::new();
    cursor.set(Position::new(3, 7));
    cursor.advance();
    assert_eq!(cursor.get(), Position { col: 4, row: 7 });
    cursor.advance();
    assert_eq!(cursor.get().row, 7);
}

#[test]
fn cursor_set_takes_any_position() {
    let mut cursor = CursorTracker::new();
    cursor.set(Position::new(-4, 30000));
    assert_eq!(cursor.get(), Position { col: -4, row: 30000 });
    cursor.set(Position::new(i16::MAX, i16::MIN));
    assert_eq!(cursor.get(), Position { col: i16::MAX, row: i16::MIN });
}

#[test]
fn cursor_does_not_wrap_at_any_width() {
    let mut cursor = CursorTracker::new();
    cursor.set(Position::new(79, 0));
    cursor.advance();
    assert_eq!(cursor.get(), Position { col: 80, row: 0 });
}

#[test]
fn cursor_newline_from_a_negative_row() {
    let mut cursor = CursorTracker::new();
    cursor.set(Position::new(12, -1));
    cursor.newline();
    assert_eq!(cursor.get(), Position { col: 0, row: 0 });
}
