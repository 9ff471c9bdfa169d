//! From styled characters to cells that can be drawn.

use vstd::prelude::*;
use crate::color::{Color, DEFAULT_COLOR, PIXEL_MAX};

verus! {

/// One cell ready to be drawn: a character and the pixel to draw it in.
#[derive(Clone, Copy, Debug, PartialEq, Eq, Structural)]
pub struct Printable {
    pub value: char,
    pub color: u32,
}

impl Printable {
    /// The cell that stands for nothing: a blank in the default color.
    pub open spec fn blank() -> Printable {
        Printable { value: ' ', color: DEFAULT_COLOR }
    }

    /// The cell to draw where the host asks for a cleared cell.
    pub fn clear_output() -> (cell: Self)
        ensures
            cell == Printable::blank(),
    {
        Printable { value: ' ', color: DEFAULT_COLOR }
    }
}

/// What lies on one layer of a cell's style.
#[derive(Clone, Copy, Debug, PartialEq, Eq, Structural)]
pub enum StyleGround {
    /// Nothing.
    Clear,
    /// A color.
    Color(Color),
    /// Whatever the widget behind shows.
    Transparent,
    /// Whatever the host fills empty space with.
    Filler,
}

/// The style of a cell as the host hands it over. Only the foreground is
/// drawn.
#[derive(Clone, Copy, Debug, PartialEq, Eq, Structural)]
pub struct Style {
    pub fg: StyleGround,
    pub bg: StyleGround,
}

/// The cell that a styled character becomes: the character in the pixel of
/// its foreground color. A character whose foreground is no color becomes
/// the blank cell, whatever the character.
pub open spec fn processed(character: char, style: Style) -> Printable {
    match style.fg {
        StyleGround::Color(color) => Printable { value: character, color: color.pixel() },
        _ => Printable::blank(),
    }
}

/// Turns styled characters into cells. It keeps nothing between calls.
#[derive(Clone, Copy, Debug, PartialEq, Eq, Structural)]
pub struct XContentProcessor {}

impl XContentProcessor {
    pub fn new() -> (processor: Self)
        ensures
            processor == (XContentProcessor {  }),
    {
        XContentProcessor {  }
    }

    /// Resolves one styled character.
    pub fn process(&mut self, character: char, style: &Style) -> (cell: Printable)
        ensures
            cell == processed(character, *style),
            cell.color <= PIXEL_MAX,
    {
        match style.fg {
            StyleGround::Color(color) => Printable { value: character, color: color.to_pixel() },
            _ => Printable::clear_output(),
        }
    }
}

} // verus!
