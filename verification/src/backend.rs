//! The backend that a host drives: a cursor, and plans for the surface.
//!
//! The backend owns the cursor and nothing else. It talks to no window: what
//! it is asked to show it returns as requests, and whoever holds the
//! connection sends them, in order, and flushes once when the pass is over.

use vstd::prelude::*;
use crate::clear::{clear_rect, clear_region, ClearType};
use crate::content::Printable;
use crate::cursor::CursorTracker;
use crate::color::DEFAULT_COLOR;
use crate::decoder::{decode, decode_chars, law_decode_plain, DecodeError};
use crate::draw::{
    all_spaces, can_draw_at, draw_glyph, draw_text, glyph_ops, law_spaces_draw_nothing,
    next_column, text_layout, DrawOp,
};
use crate::grid::{lemma_pixel_origin, Position, Size, FONT_HEIGHT, FONT_WIDTH};
use crate::text::chars_of;

verus! {

/// The first event that the surface reports after the window is mapped.
#[derive(Clone, Copy, Debug, PartialEq, Eq, Structural)]
pub enum StartupEvent {
    /// The window is on screen and wants to be drawn.
    Expose,
    /// Anything else.
    Other,
}

/// Why the backend could not be set up.
#[derive(Clone, Copy, Debug, PartialEq, Eq, Structural)]
pub enum SetupError {
    /// The first event was not the exposure of the window.
    UnexpectedEvent,
}

/// Why a request of the host could not be planned.
#[derive(Clone, Copy, Debug, PartialEq, Eq, Structural)]
pub enum BackendError {
    /// The text holds a style run that is not well formed.
    Decode(DecodeError),
    /// A coordinate does not fit the numbers that the surface takes.
    OutOfRange,
}

/// A run of spaces, taken as escape-coded text, decodes to itself in the
/// default color, draws nothing, and moves the cursor right by its length.
pub proof fn law_raw_spaces_draw_nothing(at: Position, text: Seq<char>)
    requires
        all_spaces(text),
        at.col + text.len() <= i16::MAX,
    ensures
        decode(text) == Ok::<(u32, Seq<char>), DecodeError>((DEFAULT_COLOR, text)),
        text_layout(at, DEFAULT_COLOR, text) == Some(
            (Position { col: (at.col + text.len()) as i16, row: at.row }, Seq::<DrawOp>::empty()),
        ),
{
    law_decode_plain(text);
    law_spaces_draw_nothing(at, DEFAULT_COLOR, text);
}

/// The backend of one window.
#[derive(Debug)]
pub struct XBackend {
    cursor: CursorTracker,
}

impl XBackend {
    /// Where the cursor is.
    pub closed spec fn cursor(&self) -> Position {
        self.cursor@
    }

    /// Sets the backend up once the window has reported its first event.
    ///
    /// Succeeds exactly when that event is the exposure of the window, with
    /// the cursor on the top-left cell.
    pub fn new(first_event: StartupEvent) -> (backend: Result<Self, SetupError>)
        ensures
            match backend {
                Ok(backend) => first_event == StartupEvent::Expose && backend.cursor() == (
                    Position { col: 0, row: 0 }),
                Err(error) => first_event != StartupEvent::Expose && error
                    == SetupError::UnexpectedEvent,
            },
    {
        match first_event {
            StartupEvent::Expose => Ok(XBackend { cursor: CursorTracker::new() }),
            StartupEvent::Other => Err(SetupError::UnexpectedEvent),
        }
    }

    /// The grid on a surface that is now `width` by `height` pixels. Nothing
    /// of it is kept: ask again after the window may have changed.
    pub fn terminal_size(&self, width: u16, height: u16) -> (size: Size)
        ensures
            size.cols == width / FONT_WIDTH,
            size.rows == height / FONT_HEIGHT,
            size.pixel_width() <= width,
            size.pixel_height() <= height,
    {
        Size::from_pixels(width, height)
    }

    /// Moves the cursor to `position`, whatever it is.
    pub fn set_cursor_pos(&mut self, position: Position)
        ensures
            final(self).cursor() == position,
    {
        self.cursor.set(position);
    }

    /// Where the cursor is.
    pub fn cursor_position(&self) -> (position: Position)
        ensures
            position == self.cursor(),
    {
        self.cursor.get()
    }

    /// Plans a clear request on a grid of `size` cells.
    ///
    /// Returns the one request that erases the region, empty or not. Fails
    /// with `OutOfRange` exactly when the region is no rectangle that the
    /// surface can take. The cursor stays where it is.
    pub fn clear(&self, clear_type: ClearType, size: Size) -> (plan: Result<DrawOp, BackendError>)
        ensures
            match clear_rect(clear_type, size, self.cursor()) {
                Some(rect) => plan == Ok::<DrawOp, BackendError>(DrawOp::ClearArea { rect }),
                None => plan == Err::<DrawOp, BackendError>(BackendError::OutOfRange),
            },
    {
        match clear_region(clear_type, size, self.cursor.get()) {
            Some(rect) => Ok(DrawOp::ClearArea { rect }),
            None => Err(BackendError::OutOfRange),
        }
    }

    /// Plans the printing of one cell at the cursor, and moves the cursor
    /// one column right.
    ///
    /// Fails with `OutOfRange` exactly when no glyph can be drawn at the
    /// cursor; the cursor then stays where it is.
    pub fn print(&mut self, content: Printable) -> (plan: Result<Vec<DrawOp>, BackendError>)
        ensures
            match plan {
                Ok(ops) => {
                    &&& can_draw_at(old(self).cursor())
                    &&& ops@ == glyph_ops(old(self).cursor(), content)
                    &&& final(self).cursor() == next_column(old(self).cursor())
                },
                Err(error) => {
                    &&& !can_draw_at(old(self).cursor())
                    &&& error == BackendError::OutOfRange
                    &&& final(self).cursor() == old(self).cursor()
                },
            },
    {
        let at = self.cursor.get();
        match draw_glyph(at, content) {
            Some(ops) => {
                proof {
                    lemma_pixel_origin(at);
                }
                self.cursor.advance();
                Ok(ops)
            },
            None => Err(BackendError::OutOfRange),
        }
    }

    /// Plans the printing of escape-coded text from the cursor on, all of it
    /// in the color that is in force at its end, and moves the cursor to
    /// where the text ends.
    ///
    /// Fails with `Decode` exactly when the text does not decode, and with
    /// `OutOfRange` exactly when it decodes and cannot be laid out from the
    /// cursor. On failure nothing is planned and the cursor stays where it
    /// is. A run of spaces plans no request at all and moves the cursor
    /// right by its length.
    pub fn print_raw(&mut self, content: &str) -> (plan: Result<Vec<DrawOp>, BackendError>)
        ensures
            all_spaces(content@) && old(self).cursor().col + content@.len() <= i16::MAX ==> {
                &&& plan matches Ok(planned)
                &&& planned@.len() == 0
                &&& final(self).cursor().col == old(self).cursor().col + content@.len()
                &&& final(self).cursor().row == old(self).cursor().row
            },
            match decode(content@) {
                Ok((color, text)) => match text_layout(old(self).cursor(), color, text) {
                    Some((end, ops)) => {
                        &&& plan matches Ok(planned)
                        &&& planned@ == ops
                        &&& final(self).cursor() == end
                    },
                    None => {
                        &&& plan == Err::<Vec<DrawOp>, BackendError>(BackendError::OutOfRange)
                        &&& final(self).cursor() == old(self).cursor()
                    },
                },
                Err(error) => {
                    &&& plan == Err::<Vec<DrawOp>, BackendError>(BackendError::Decode(error))
                    &&& final(self).cursor() == old(self).cursor()
                },
            },
    {
        proof {
            if all_spaces(content@) && self.cursor().col + content@.len() <= i16::MAX {
                law_raw_spaces_draw_nothing(self.cursor(), content@);
            }
        }
        let chars = chars_of(content);
        match decode_chars(chars.as_slice()) {
            Ok((color, text)) => match draw_text(self.cursor.get(), color, text.as_slice()) {
                Some((end, ops)) => {
                    self.cursor.set(end);
                    Ok(ops)
                },
                None => Err(BackendError::OutOfRange),
            },
            Err(error) => Err(BackendError::Decode(error)),
        }
    }

    /// A window has no alternate screen. Succeeds and changes nothing.
    pub fn alt_screen(&mut self, _enable: bool) -> (done: Result<(), BackendError>)
        ensures
            done is Ok,
            final(self).cursor() == old(self).cursor(),
    {
        Ok(())
    }

    /// A window has no raw mode. Succeeds and changes nothing.
    pub fn raw_mode(&mut self, _enable: bool) -> (done: Result<(), BackendError>)
        ensures
            done is Ok,
            final(self).cursor() == old(self).cursor(),
    {
        Ok(())
    }

    /// The cursor of a window is never shown. Succeeds and changes nothing.
    pub fn show_cursor(&mut self, _enable: bool) -> (done: Result<(), BackendError>)
        ensures
            done is Ok,
            final(self).cursor() == old(self).cursor(),
    {
        Ok(())
    }

    /// The mouse is not captured. Succeeds and changes nothing.
    pub fn capture_mouse(&mut self, _enable: bool) -> (done: Result<(), BackendError>)
        ensures
            done is Ok,
            final(self).cursor() == old(self).cursor(),
    {
        Ok(())
    }

    /// Updates are not grouped. Succeeds and changes nothing.
    pub fn begin_sync_update(&mut self) -> (done: Result<(), BackendError>)
        ensures
            done is Ok,
            final(self).cursor() == old(self).cursor(),
    {
        Ok(())
    }

    /// Updates are not grouped. Succeeds and changes nothing.
    pub fn end_sync_update(&mut self) -> (done: Result<(), BackendError>)
        ensures
            done is Ok,
            final(self).cursor() == old(self).cursor(),
    {
        Ok(())
    }
}

} // verus!
