use tuigui_x::color::{AnsiColor, Color};
use tuigui_x::content::{Style, StyleGround};
use tuigui_x::{Printable, XContentProcessor};

#[test]
fn clear_output_is_a_black_blank() {
    assert_eq!(Printable::clear_output(), Printable { value: ' ', color: 0 });
}

#[test]
fn process_named_foreground() {
    let mut processor = XContentProcessor::new();
    let style = Style { fg: StyleGround::Color(Color::Ansi(AnsiColor::Green)), bg: StyleGround::Clear };
    assert_eq!(processor.process('x', &style), Printable { value: 'x', color: 0x00FF00 });
}

#[test]
fn process_custom_foreground() {
    let mut processor = XContentProcessor::new();
    let style = Style {
        fg: StyleGround::Color(Color::Custom { r: 1, g: 2, b: 3 }),
        bg: StyleGround::Clear,
    };
    assert_eq!(processor.process('\u{2588}', &style), Printable { value: '\u{2588}', color: 0x010203 });
}

#[test]
fn process_ignores_the_background() {
    let mut processor = XContentProcessor::new();
    let fg = StyleGround::Color(Color::Ansi(AnsiColor::Cyan));
    let plain = Style { fg, bg: StyleGround::Clear };
    let backed = Style { fg, bg: StyleGround::Color(Color::Ansi(AnsiColor::Red)) };
    assert_eq!(processor.process('q', &plain), processor.process('q', &backed));
    assert_eq!(processor.process('q', &plain), Printable { value: 'q', color: 0x00FFFF });
}

#[test]
fn process_without_a_foreground_color_gives_the_blank() {
    let mut processor = XContentProcessor::new();
    let red = StyleGround::Color(Color::Ansi(AnsiColor::Red));
    let blank = Printable { value: ' ', color: 0 };
    assert_eq!(processor.process('x', &Style { fg: StyleGround::Clear, bg: red }), blank);
    assert_eq!(processor.process('x', &Style { fg: StyleGround::Transparent, bg: red }), blank);
    assert_eq!(processor.process('x', &Style { fg: StyleGround::Filler, bg: red }), blank);
}
