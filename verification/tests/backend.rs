use tuigui_x::backend::{BackendError, SetupError, StartupEvent};
use tuigui_x::clear::ClearType;
use tuigui_x::color::{AnsiColor, Color};
use tuigui_x::content::{Style, StyleGround};
use tuigui_x::decoder::DecodeError;
use tuigui_x::draw::DrawOp;
use tuigui_x::grid::{
    Position, Rect, Size, BORDER_WIDTH, DEFAULT_HEIGHT, DEFAULT_WIDTH, FONT_HEIGHT, FONT_OFFSET_X,
    FONT_OFFSET_Y, FONT_WIDTH,
};
use tuigui_x::{Printable, XBackend, XContentProcessor};

fn backend() -> XBackend {
    XBackend::new(StartupEvent::Expose).unwrap()
}

#[test]
fn cell_measures() {
    assert_eq!(FONT_WIDTH, 8);
    assert_eq!(FONT_HEIGHT, 16);
    assert_eq!(FONT_OFFSET_X, 2);
    assert_eq!(FONT_OFFSET_Y, 3);
    assert_eq!(DEFAULT_WIDTH, 640);
    assert_eq!(DEFAULT_HEIGHT, 480);
    assert_eq!(BORDER_WIDTH, 10);
}

#[test]
fn new_after_exposure_starts_at_the_origin() {
    let backend = XBackend::new(StartupEvent::Expose).unwrap();
    assert_eq!(backend.cursor_position(), Position { col: 0, row: 0 });
}

#[test]
fn new_after_another_event_fails() {
    assert_eq!(XBackend::new(StartupEvent::Other).err(), Some(SetupError::UnexpectedEvent));
}

#[test]
fn terminal_size_counts_whole_cells() {
    let backend = backend();
    assert_eq!(backend.terminal_size(640, 480), Size { cols: 80, rows: 30 });
    assert_eq!(backend.terminal_size(150, 150), Size { cols: 18, rows: 9 });
    assert_eq!(backend.terminal_size(647, 495), Size { cols: 80, rows: 30 });
    assert_eq!(backend.terminal_size(648, 496), Size { cols: 81, rows: 31 });
    assert_eq!(backend.terminal_size(7, 15), Size { cols: 0, rows: 0 });
    assert_eq!(backend.terminal_size(65535, 65535), Size { cols: 8191, rows: 4095 });
}

#[test]
fn terminal_size_follows_the_surface() {
    let backend = backend();
    assert_eq!(backend.terminal_size(640, 480), Size { cols: 80, rows: 30 });
    assert_eq!(backend.terminal_size(320, 240), Size { cols: 40, rows: 15 });
    assert_eq!(Size::from_pixels(320, 240), Size::new(40, 15));
}

#[test]
fn pixel_helpers() {
    assert_eq!(Position::new(3, 2).left(), 24);
    assert_eq!(Position::new(3, 2).top(), 32);
    assert_eq!(Position::new(-32768, 32767).left(), -262144);
    assert_eq!(Position::new(-32768, 32767).top(), 524272);
    assert_eq!(Size::new(80, 30).width(), 640);
    assert_eq!(Size::new(80, 30).height(), 480);
    assert_eq!(Size::new(65535, 65535).width(), 524280);
    assert_eq!(Size::new(65535, 65535).height(), 1048560);
    assert_eq!(Position::zero(), Position { col: 0, row: 0 });
}

#[test]
fn set_cursor_pos_then_cursor_position() {
    let mut backend = backend();
    backend.set_cursor_pos(Position::new(12, 34));
    assert_eq!(backend.cursor_position(), Position { col: 12, row: 34 });
    backend.set_cursor_pos(Position::new(-5, 9000));
    assert_eq!(backend.cursor_position(), Position { col: -5, row: 9000 });
}

#[test]
fn clear_gives_one_clear_request_and_keeps_the_cursor() {
    let mut backend = backend();
    backend.set_cursor_pos(Position::new(10, 5));
    let size = Size::new(80, 30);
    assert_eq!(
        backend.clear(ClearType::All, size),
        Ok(DrawOp::ClearArea { rect: Rect { x: 0, y: 0, width: 640, height: 480 } })
    );
    assert_eq!(
        backend.clear(ClearType::UntilNewLine, size),
        Ok(DrawOp::ClearArea { rect: Rect { x: 80, y: 80, width: 560, height: 16 } })
    );
    assert_eq!(backend.cursor_position(), Position { col: 10, row: 5 });
}

#[test]
fn clear_of_an_empty_region_is_still_a_request() {
    let backend = backend();
    assert_eq!(
        backend.clear(ClearType::FromCursorUp, Size::new(80, 30)),
        Ok(DrawOp::ClearArea { rect: Rect { x: 0, y: 0, width: 640, height: 0 } })
    );
}

#[test]
fn clear_out_of_range_fails() {
    let mut backend = backend();
    backend.set_cursor_pos(Position::new(81, 0));
    assert_eq!(
        backend.clear(ClearType::FromCursorDown, Size::new(80, 30)),
        Err(BackendError::OutOfRange)
    );
}

#[test]
fn print_block_fills_and_advances() {
    let mut backend = backend();
    backend.set_cursor_pos(Position::new(3, 2));
    let ops = backend.print(Printable { value: '\u{2588}', color: 0xFF0000 }).unwrap();
    assert_eq!(
        ops,
        vec![
            DrawOp::CreateContext { foreground: 0xFF0000 },
            DrawOp::FillRectangle { rect: Rect { x: 24, y: 32, width: 8, height: 16 } },
            DrawOp::FreeContext,
        ]
    );
    assert_eq!(backend.cursor_position(), Position { col: 4, row: 2 });
}

#[test]
fn print_letter_clears_writes_and_advances() {
    let mut backend = backend();
    let ops = backend.print(Printable { value: 'T', color: 0x00FFFF }).unwrap();
    assert_eq!(
        ops,
        vec![
            DrawOp::CreateContext { foreground: 0x00FFFF },
            DrawOp::ClearArea { rect: Rect { x: 0, y: 0, width: 8, height: 16 } },
            DrawOp::ImageText { x: 2, y: 13, glyph: 0x54 },
            DrawOp::FreeContext,
        ]
    );
    assert_eq!(backend.cursor_position(), Position { col: 1, row: 0 });
}

#[test]
fn print_of_processed_cells() {
    let mut backend = backend();
    let mut processor = XContentProcessor::new();
    let style = Style { fg: StyleGround::Color(Color::Ansi(AnsiColor::Green)), bg: StyleGround::Clear };
    let cell = processor.process('\u{2588}', &style);
    let blank = XContentProcessor::new().process('q', &Style { fg: StyleGround::Clear, bg: StyleGround::Clear });
    let first = backend.print(cell).unwrap();
    let second = backend.print(blank).unwrap();
    assert_eq!(first[0], DrawOp::CreateContext { foreground: 0x00FF00 });
    assert_eq!(first.len(), 3);
    assert_eq!(second[0], DrawOp::CreateContext { foreground: 0 });
    assert_eq!(second[2], DrawOp::ImageText { x: 10, y: 13, glyph: 0x20 });
    assert_eq!(backend.cursor_position(), Position { col: 2, row: 0 });
}

#[test]
fn print_off_the_surface_fails_and_keeps_the_cursor() {
    let mut backend = backend();
    backend.set_cursor_pos(Position::new(4096, 0));
    assert_eq!(
        backend.print(Printable { value: 'x', color: 0 }),
        Err(BackendError::OutOfRange)
    );
    assert_eq!(backend.cursor_position(), Position { col: 4096, row: 0 });
}

#[test]
fn print_raw_decodes_then_draws() {
    let mut backend = backend();
    backend.set_cursor_pos(Position::new(2, 1));
    let ops = backend.print_raw("\x1b[31mA \x1b[32m\u{2588}").unwrap();
    assert_eq!(
        ops,
        vec![
            DrawOp::CreateContext { foreground: 0x008000 },
            DrawOp::ClearArea { rect: Rect { x: 16, y: 16, width: 8, height: 16 } },
            DrawOp::ImageText { x: 18, y: 29, glyph: 0x41 },
            DrawOp::FreeContext,
            DrawOp::CreateContext { foreground: 0x008000 },
            DrawOp::FillRectangle { rect: Rect { x: 32, y: 16, width: 8, height: 16 } },
            DrawOp::FreeContext,
        ]
    );
    assert_eq!(backend.cursor_position(), Position { col: 5, row: 1 });
}

#[test]
fn print_raw_of_three_spaces() {
    let mut backend = backend();
    backend.set_cursor_pos(Position::new(9, 9));
    assert_eq!(backend.print_raw("   "), Ok(vec![]));
    assert_eq!(backend.cursor_position(), Position { col: 12, row: 9 });
}

#[test]
fn print_raw_newline() {
    let mut backend = backend();
    backend.set_cursor_pos(Position::new(9, 9));
    assert_eq!(backend.print_raw("\x1b[35m\n"), Ok(vec![]));
    assert_eq!(backend.cursor_position(), Position { col: 0, row: 10 });
}

#[test]
fn print_raw_malformed_fails_and_keeps_the_cursor() {
    let mut backend = backend();
    backend.set_cursor_pos(Position::new(9, 9));
    assert_eq!(
        backend.print_raw("abc\x1b[3"),
        Err(BackendError::Decode(DecodeError::Unterminated))
    );
    assert_eq!(
        backend.print_raw("abc\x1b"),
        Err(BackendError::Decode(DecodeError::MissingIntroducer))
    );
    assert_eq!(
        backend.print_raw("abc\x1b[xm"),
        Err(BackendError::Decode(DecodeError::BadParameter))
    );
    assert_eq!(backend.cursor_position(), Position { col: 9, row: 9 });
}

#[test]
fn print_raw_off_the_surface_fails_and_keeps_the_cursor() {
    let mut backend = backend();
    backend.set_cursor_pos(Position::new(4094, 0));
    assert_eq!(backend.print_raw("abc"), Err(BackendError::OutOfRange));
    assert_eq!(backend.cursor_position(), Position { col: 4094, row: 0 });
}

#[test]
fn hooks_succeed_and_change_nothing() {
    let mut backend = backend();
    backend.set_cursor_pos(Position::new(6, 7));
    assert_eq!(backend.alt_screen(true), Ok(()));
    assert_eq!(backend.alt_screen(false), Ok(()));
    assert_eq!(backend.raw_mode(true), Ok(()));
    assert_eq!(backend.raw_mode(false), Ok(()));
    assert_eq!(backend.show_cursor(true), Ok(()));
    assert_eq!(backend.show_cursor(false), Ok(()));
    assert_eq!(backend.capture_mouse(true), Ok(()));
    assert_eq!(backend.capture_mouse(false), Ok(()));
    assert_eq!(backend.begin_sync_update(), Ok(()));
    assert_eq!(backend.end_sync_update(), Ok(()));
    assert_eq!(backend.cursor_position(), Position { col: 6, row: 7 });
}
