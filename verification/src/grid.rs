//! The cell grid and the pixel surface under it.
//!
//! Every cell is `FONT_WIDTH` pixels wide and `FONT_HEIGHT` pixels high. The
//! surface speaks in signed 16-bit origins and unsigned 16-bit extents, so a
//! rectangle is only a [`Rect`] when all four of its numbers fit those types.

use vstd::prelude::*;

verus! {

/// Width of one cell, in pixels.
pub const FONT_WIDTH: u16 = 8;

/// Height of one cell, in pixels.
pub const FONT_HEIGHT: u16 = 16;

/// Horizontal distance from a cell's left edge to the text origin.
pub const FONT_OFFSET_X: i16 = 2;

/// Vertical distance from a cell's bottom edge up to the text baseline.
pub const FONT_OFFSET_Y: i16 = 3;

/// Width, in pixels, of the window that is opened at start-up.
pub const DEFAULT_WIDTH: u16 = 640;

/// Height, in pixels, of the window that is opened at start-up.
pub const DEFAULT_HEIGHT: u16 = 480;

/// Width, in pixels, of the border of the window.
pub const BORDER_WIDTH: u16 = 10;

/// A cell of the grid: column and row, counted from the top-left corner.
///
/// Both are non-negative while the host behaves, but nothing here clamps
/// them: a position is whatever the host last set.
#[derive(Clone, Copy, Debug, PartialEq, Eq, Structural)]
pub struct Position {
    pub col: i16,
    pub row: i16,
}

impl Position {
    pub fn new(col: i16, row: i16) -> (p: Self)
        ensures
            p == (Position { col, row }),
    {
        Position { col, row }
    }

    /// The top-left cell.
    pub fn zero() -> (p: Self)
        ensures
            p == (Position { col: 0, row: 0 }),
    {
        Position { col: 0, row: 0 }
    }

    /// Left edge of this cell on the surface, in pixels.
    pub open spec fn pixel_x(self) -> int {
        self.col * FONT_WIDTH
    }

    /// Top edge of this cell on the surface, in pixels.
    pub open spec fn pixel_y(self) -> int {
        self.row * FONT_HEIGHT
    }

    /// Computes the left edge of this cell, in pixels.
    pub fn left(self) -> (x: i32)
        ensures
            x == self.pixel_x(),
    {
        proof {
            lemma_pixel_origin(self);
        }
        self.col as i32 * FONT_WIDTH as i32
    }

    /// Computes the top edge of this cell, in pixels.
    pub fn top(self) -> (y: i32)
        ensures
            y == self.pixel_y(),
    {
        proof {
            lemma_pixel_origin(self);
        }
        self.row as i32 * FONT_HEIGHT as i32
    }
}

/// The extent of the grid, in cells.
#[derive(Clone, Copy, Debug, PartialEq, Eq, Structural)]
pub struct Size {
    pub cols: u16,
    pub rows: u16,
}

impl Size {
    pub fn new(cols: u16, rows: u16) -> (s: Self)
        ensures
            s == (Size { cols, rows }),
    {
        Size { cols, rows }
    }

    /// Width of the grid on the surface, in pixels.
    pub open spec fn pixel_width(self) -> int {
        self.cols * FONT_WIDTH
    }

    /// Height of the grid on the surface, in pixels.
    pub open spec fn pixel_height(self) -> int {
        self.rows * FONT_HEIGHT
    }

    /// Computes the width of the grid, in pixels.
    pub fn width(self) -> (w: i32)
        ensures
            w == self.pixel_width(),
    {
        proof {
            lemma_pixel_extent(self);
        }
        self.cols as i32 * FONT_WIDTH as i32
    }

    /// Computes the height of the grid, in pixels.
    pub fn height(self) -> (h: i32)
        ensures
            h == self.pixel_height(),
    {
        proof {
            lemma_pixel_extent(self);
        }
        self.rows as i32 * FONT_HEIGHT as i32
    }

    /// The grid that a surface of `width` by `height` pixels holds: as many
    /// whole cells as fit in each direction.
    pub fn from_pixels(width: u16, height: u16) -> (s: Self)
        ensures
            s.cols == width / FONT_WIDTH,
            s.rows == height / FONT_HEIGHT,
            s.pixel_width() <= width < s.pixel_width() + FONT_WIDTH,
            s.pixel_height() <= height < s.pixel_height() + FONT_HEIGHT,
    {
        let s = Size { cols: width / FONT_WIDTH, rows: height / FONT_HEIGHT };
        proof {
            lemma_pixel_extent(s);
        }
        s
    }
}

/// The pixel origin of a cell, with the cell's measures written out.
pub proof fn lemma_pixel_origin(at: Position)
    ensures
        at.pixel_x() == 8 * at.col,
        at.pixel_y() == 16 * at.row,
{
    let col = at.col as int;
    let row = at.row as int;
    let width = FONT_WIDTH as int;
    let height = FONT_HEIGHT as int;
    assert(col * width == 8 * col && row * height == 16 * row) by (nonlinear_arith)
        requires
            width == 8,
            height == 16,
    ;
}

/// The pixel extent of a grid, with the cell's measures written out.
pub proof fn lemma_pixel_extent(size: Size)
    ensures
        size.pixel_width() == 8 * size.cols,
        size.pixel_height() == 16 * size.rows,
{
    let cols = size.cols as int;
    let rows = size.rows as int;
    let width = FONT_WIDTH as int;
    let height = FONT_HEIGHT as int;
    assert(cols * width == 8 * cols && rows * height == 16 * rows) by (nonlinear_arith)
        requires
            width == 8,
            height == 16,
    ;
}

/// A pixel rectangle as the surface takes it.
#[derive(Clone, Copy, Debug, PartialEq, Eq, Structural)]
pub struct Rect {
    pub x: i16,
    pub y: i16,
    pub width: u16,
    pub height: u16,
}

impl Rect {
    /// The pixel column just past the right edge.
    pub open spec fn right(self) -> int {
        self.x + self.width
    }

    /// The pixel row just past the bottom edge.
    pub open spec fn bottom(self) -> int {
        self.y + self.height
    }
}

} // verus!
