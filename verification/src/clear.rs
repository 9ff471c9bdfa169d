//! Which pixels a clear request erases.
//!
//! A request names a region relative to the cursor or the whole grid. The
//! region is a rectangle in pixels; it may be empty, and an empty rectangle
//! is still a rectangle. What cannot be written in the surface's 16-bit
//! numbers is no rectangle at all.

use vstd::prelude::*;
use crate::grid::{
    lemma_pixel_extent, lemma_pixel_origin, Position, Rect, Size, FONT_HEIGHT, FONT_WIDTH,
};

verus! {

/// The regions that can be cleared.
#[derive(Clone, Copy, Debug, PartialEq, Eq, Structural)]
pub enum ClearType {
    /// Every cell.
    All,
    /// Every cell, and whatever history there is. A window has none.
    Purge,
    /// The row of the cursor.
    CurrentLine,
    /// From the cursor's cell to the bottom-right corner.
    FromCursorDown,
    /// The rows above the cursor.
    FromCursorUp,
    /// From the cursor's cell to the end of its row.
    UntilNewLine,
}

/// Left edge of the region, in pixels.
pub open spec fn clear_x(clear_type: ClearType, cursor: Position) -> int {
    match clear_type {
        ClearType::FromCursorDown | ClearType::UntilNewLine => cursor.pixel_x(),
        _ => 0,
    }
}

/// Top edge of the region, in pixels.
pub open spec fn clear_y(clear_type: ClearType, cursor: Position) -> int {
    match clear_type {
        ClearType::FromCursorDown | ClearType::CurrentLine | ClearType::UntilNewLine =>
            cursor.pixel_y(),
        _ => 0,
    }
}

/// Width of the region, in pixels. Negative when the cursor is right of the
/// grid and the region starts at the cursor.
pub open spec fn clear_width(clear_type: ClearType, size: Size, cursor: Position) -> int {
    match clear_type {
        ClearType::FromCursorDown | ClearType::UntilNewLine => size.pixel_width()
            - cursor.pixel_x(),
        _ => size.pixel_width(),
    }
}

/// Height of the region, in pixels. Negative when the cursor is out of the
/// grid on the side that the region is measured from.
pub open spec fn clear_height(clear_type: ClearType, size: Size, cursor: Position) -> int {
    match clear_type {
        ClearType::All | ClearType::Purge => size.pixel_height(),
        ClearType::FromCursorDown => size.pixel_height() - cursor.pixel_y(),
        ClearType::FromCursorUp => cursor.pixel_y(),
        ClearType::CurrentLine | ClearType::UntilNewLine => FONT_HEIGHT as int,
    }
}

/// Whether the four numbers are a rectangle that the surface can take.
pub open spec fn fits_surface(x: int, y: int, width: int, height: int) -> bool {
    &&& i16::MIN <= x <= i16::MAX
    &&& i16::MIN <= y <= i16::MAX
    &&& 0 <= width <= u16::MAX
    &&& 0 <= height <= u16::MAX
}

/// The rectangle that a clear request erases, if the surface can take it.
pub open spec fn clear_rect(clear_type: ClearType, size: Size, cursor: Position) -> Option<Rect> {
    let x = clear_x(clear_type, cursor);
    let y = clear_y(clear_type, cursor);
    let width = clear_width(clear_type, size, cursor);
    let height = clear_height(clear_type, size, cursor);
    if fits_surface(x, y, width, height) {
        Some(Rect { x: x as i16, y: y as i16, width: width as u16, height: height as u16 })
    } else {
        None
    }
}

/// Whether the cursor's row lies where the region's height is measured: the
/// rows above the cursor end at the grid's last row at the latest, and the
/// cursor's own row is one of the grid's.
pub open spec fn row_in_reach(clear_type: ClearType, size: Size, cursor: Position) -> bool {
    match clear_type {
        ClearType::FromCursorUp => cursor.row <= size.rows,
        ClearType::CurrentLine | ClearType::UntilNewLine => cursor.row < size.rows,
        _ => true,
    }
}

/// `upper` lies on `lower`, and together they cover `whole` exactly.
pub open spec fn stacked(upper: Rect, lower: Rect, whole: Rect) -> bool {
    &&& upper.x == whole.x && lower.x == whole.x
    &&& upper.width == whole.width && lower.width == whole.width
    &&& upper.y == whole.y
    &&& upper.bottom() == lower.y
    &&& lower.bottom() == whole.bottom()
}

/// Plans a clear request on a grid of `size` cells with the cursor at
/// `cursor`.
///
/// Returns the rectangle to erase. Returns `None` exactly when one of its
/// four numbers does not fit the surface's types: a grid wider or higher
/// than 65535 pixels, or a cursor so far out that a pixel origin leaves the
/// signed 16-bit range or an extent turns negative.
pub fn clear_region(clear_type: ClearType, size: Size, cursor: Position) -> (region: Option<Rect>)
    ensures
        region == clear_rect(clear_type, size, cursor),
{
    proof {
        lemma_pixel_origin(cursor);
        lemma_pixel_extent(size);
    }
    let grid_width: i32 = size.width();
    let grid_height: i32 = size.height();
    let cursor_x: i32 = cursor.left();
    let cursor_y: i32 = cursor.top();
    let x: i32 = match clear_type {
        ClearType::FromCursorDown | ClearType::UntilNewLine => cursor_x,
        _ => 0,
    };
    let y: i32 = match clear_type {
        ClearType::FromCursorDown | ClearType::CurrentLine | ClearType::UntilNewLine => cursor_y,
        _ => 0,
    };
    let width: i32 = match clear_type {
        ClearType::FromCursorDown | ClearType::UntilNewLine => grid_width - cursor_x,
        _ => grid_width,
    };
    let height: i32 = match clear_type {
        ClearType::All | ClearType::Purge => grid_height,
        ClearType::FromCursorDown => grid_height - cursor_y,
        ClearType::FromCursorUp => cursor_y,
        ClearType::CurrentLine | ClearType::UntilNewLine => FONT_HEIGHT as i32,
    };
    if -32768 <= x && x <= 32767 && -32768 <= y && y <= 32767 && 0 <= width && width <= 65535 && 0
        <= height && height <= 65535 {
        Some(Rect { x: x as i16, y: y as i16, width: width as u16, height: height as u16 })
    } else {
        None
    }
}

/// No region reaches past the right edge of the grid: each ends exactly
/// there. Its bottom edge stays within the grid exactly when the cursor's
/// row is in reach of the request.
pub proof fn law_clear_within_surface(
    clear_type: ClearType,
    size: Size,
    cursor: Position,
    region: Rect,
)
    requires
        clear_rect(clear_type, size, cursor) == Some(region),
    ensures
        region.right() == size.pixel_width(),
        region.bottom() <= size.pixel_height() <==> row_in_reach(clear_type, size, cursor),
{
    lemma_pixel_origin(cursor);
    lemma_pixel_extent(size);
}

/// The grid fits the surface's extents, and the cursor is on the grid or just
/// past its last column or row, at a pixel origin that the surface can take.
pub open spec fn cursor_on_surface(size: Size, cursor: Position) -> bool {
    &&& size.pixel_width() <= u16::MAX
    &&& size.pixel_height() <= u16::MAX
    &&& 0 <= cursor.col <= size.cols
    &&& 0 <= cursor.row <= size.rows
    &&& cursor.pixel_x() <= i16::MAX
    &&& cursor.pixel_y() <= i16::MAX
}

/// Every request has a rectangle when the cursor is on the surface.
pub proof fn law_clear_defined_on_surface(clear_type: ClearType, size: Size, cursor: Position)
    requires
        cursor_on_surface(size, cursor),
    ensures
        clear_rect(clear_type, size, cursor) is Some,
{
    lemma_pixel_origin(cursor);
    lemma_pixel_extent(size);
}

/// With the cursor in the first column, the rows above it and the region
/// from it downwards split the whole grid between them, and the rest of its
/// row is its whole row. At the origin, the first is empty and the second is
/// the whole grid.
pub proof fn law_clear_from_first_column(size: Size, cursor: Position)
    requires
        cursor_on_surface(size, cursor),
        cursor.col == 0,
    ensures
        ({
            let all = clear_rect(ClearType::All, size, cursor);
            let up = clear_rect(ClearType::FromCursorUp, size, cursor);
            let down = clear_rect(ClearType::FromCursorDown, size, cursor);
            &&& all is Some && up is Some && down is Some
            &&& stacked(up->0, down->0, all->0)
            &&& cursor.row == 0 ==> up->0.height == 0 && down == all
            &&& clear_rect(ClearType::UntilNewLine, size, cursor) == clear_rect(
                ClearType::CurrentLine,
                size,
                cursor,
            )
        }),
{
    lemma_pixel_origin(cursor);
    lemma_pixel_extent(size);
}

/// With the cursor in the last row, the rows above it and its own row split
/// the whole grid between them, and the region from it downwards is the rest
/// of its row. At the final cell that rest is one cell.
pub proof fn law_clear_on_last_row(size: Size, cursor: Position)
    requires
        cursor_on_surface(size, cursor),
        cursor.row == size.rows - 1,
    ensures
        ({
            let all = clear_rect(ClearType::All, size, cursor);
            let up = clear_rect(ClearType::FromCursorUp, size, cursor);
            let line = clear_rect(ClearType::CurrentLine, size, cursor);
            let down = clear_rect(ClearType::FromCursorDown, size, cursor);
            &&& all is Some && up is Some && line is Some && down is Some
            &&& stacked(up->0, line->0, all->0)
            &&& clear_rect(ClearType::UntilNewLine, size, cursor) == down
            &&& cursor.col == size.cols - 1 ==> down->0.width == FONT_WIDTH && down->0.height
                == FONT_HEIGHT
        }),
{
    lemma_pixel_origin(cursor);
    lemma_pixel_extent(size);
}

/// `Purge` erases what `All` erases.
pub proof fn law_clear_purge_is_all(size: Size, cursor: Position)
    ensures
        clear_rect(ClearType::Purge, size, cursor) == clear_rect(ClearType::All, size, cursor),
{
}

} // verus!
