//! The text cursor of the cell grid.

use vstd::prelude::*;
use crate::grid::Position;

verus! {

/// Where the next glyph goes.
///
/// The tracker never wraps at the right edge of the grid and never clamps:
/// the column only returns to zero on [`CursorTracker::newline`], and
/// [`CursorTracker::set`] takes any position.
#[derive(Clone, Copy, Debug)]
pub struct CursorTracker {
    position: Position,
}

impl View for CursorTracker {
    type V = Position;

    closed spec fn view(&self) -> Position {
        self.position
    }
}

impl CursorTracker {
    /// A cursor on the top-left cell.
    pub fn new() -> (t: Self)
        ensures
            t@ == (Position { col: 0, row: 0 }),
    {
        CursorTracker { position: Position { col: 0, row: 0 } }
    }

    /// The current position.
    pub fn get(&self) -> (p: Position)
        ensures
            p == self@,
    {
        self.position
    }

    /// Moves the cursor to `position`, whatever it is.
    pub fn set(&mut self, position: Position)
        ensures
            final(self)@ == position,
    {
        self.position = position;
    }

    /// Moves one column to the right. The row stays.
    pub fn advance(&mut self)
        requires
            old(self)@.col < i16::MAX,
        ensures
            final(self)@.col == old(self)@.col + 1,
            final(self)@.row == old(self)@.row,
    {
        self.position.col = self.position.col + 1;
    }

    /// Moves to the first column of the next row.
    pub fn newline(&mut self)
        requires
            old(self)@.row < i16::MAX,
        ensures
            final(self)@.col == 0,
            final(self)@.row == old(self)@.row + 1,
    {
        self.position.row = self.position.row + 1;
        self.position.col = 0;
    }
}

} // verus!
