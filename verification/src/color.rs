//! From abstract colors to 24-bit pixels.
//!
//! A pixel packs red, green and blue, eight bits each, red highest. Two fixed
//! palettes name colors: the saturated one, sixteen entries, for cells that
//! arrive with a structured style, and the muted one, eight entries, for the
//! numeric codes of escape-coded text.

use vstd::prelude::*;

verus! {

/// The pixel that text has before any code selects another: black.
pub const DEFAULT_COLOR: u32 = 0x000000;

/// The largest pixel value: white.
pub const PIXEL_MAX: u32 = 0xFFFFFF;

/// The sixteen named colors.
#[derive(Clone, Copy, Debug, PartialEq, Eq, Structural)]
pub enum AnsiColor {
    Black,
    BrightBlack,
    Red,
    BrightRed,
    Green,
    BrightGreen,
    Yellow,
    BrightYellow,
    Blue,
    BrightBlue,
    Magenta,
    BrightMagenta,
    Cyan,
    BrightCyan,
    White,
    BrightWhite,
}

/// A color as the host names it.
#[derive(Clone, Copy, Debug, PartialEq, Eq, Structural)]
pub enum Color {
    /// Red, green and blue given outright.
    Custom { r: u8, g: u8, b: u8 },
    /// One of the sixteen named colors.
    Ansi(AnsiColor),
}

/// The pixel with the given red, green and blue.
pub open spec fn rgb(r: u8, g: u8, b: u8) -> u32 {
    (r * 0x10000 + g * 0x100 + b) as u32
}

/// The saturated palette.
pub open spec fn true_color(color: AnsiColor) -> u32 {
    match color {
        AnsiColor::Black => 0x000000,
        AnsiColor::Red => 0xFF0000,
        AnsiColor::Green => 0x00FF00,
        AnsiColor::Yellow => 0xFFFF00,
        AnsiColor::Blue => 0x0000FF,
        AnsiColor::Magenta => 0xFF00FF,
        AnsiColor::Cyan => 0x00FFFF,
        AnsiColor::White => 0xFFFFFF,
        AnsiColor::BrightBlack => 0x808080,
        AnsiColor::BrightRed => 0xFF8080,
        AnsiColor::BrightGreen => 0x80FF80,
        AnsiColor::BrightYellow => 0xFFFF80,
        AnsiColor::BrightBlue => 0x8080FF,
        AnsiColor::BrightMagenta => 0xFF80FF,
        AnsiColor::BrightCyan => 0x80FFFF,
        AnsiColor::BrightWhite => 0xC0C0C0,
    }
}

/// The muted palette, by index: black, red, green, yellow, blue, magenta,
/// cyan, white.
pub open spec fn console_color(index: int) -> u32
    recommends
        0 <= index < 8,
{
    if index == 0 {
        0x000000
    } else if index == 1 {
        0x800000
    } else if index == 2 {
        0x008000
    } else if index == 3 {
        0x808000
    } else if index == 4 {
        0x000080
    } else if index == 5 {
        0x800080
    } else if index == 6 {
        0x008080
    } else {
        0xC0C0C0
    }
}

/// What a numeric style code selects, if it selects anything: 0 the default,
/// 30 to 37 and 40 to 47 the muted palette's entries 0 to 7. The codes from
/// 40 name backgrounds; only one color is kept, so they set it like the
/// others.
pub open spec fn sgr_color(code: u32) -> Option<u32> {
    if code == 0 {
        Some(DEFAULT_COLOR)
    } else if 30 <= code <= 37 {
        Some(console_color(code - 30))
    } else if 40 <= code <= 47 {
        Some(console_color(code - 40))
    } else {
        None
    }
}

/// The color in force after `code` is read while `current` is in force. A
/// code that selects nothing changes nothing.
pub open spec fn sgr_apply(current: u32, code: u32) -> u32 {
    match sgr_color(code) {
        Some(color) => color,
        None => current,
    }
}

impl Color {
    /// The pixel of this color: its own three bytes, or the saturated
    /// palette's entry.
    pub open spec fn pixel(self) -> u32 {
        match self {
            Color::Custom { r, g, b } => rgb(r, g, b),
            Color::Ansi(name) => true_color(name),
        }
    }

    /// Maps this color to its pixel.
    pub fn to_pixel(self) -> (p: u32)
        ensures
            p == self.pixel(),
            p <= PIXEL_MAX,
    {
        match self {
            Color::Custom { r, g, b } => pack_rgb(r, g, b),
            Color::Ansi(name) => true_color_pixel(name),
        }
    }
}

/// Packs red, green and blue into a pixel.
pub fn pack_rgb(r: u8, g: u8, b: u8) -> (p: u32)
    ensures
        p == rgb(r, g, b),
        p == r * 0x10000 + g * 0x100 + b,
        p <= PIXEL_MAX,
{
    assert(((r as u32) << 16 | (g as u32) << 8 | (b as u32)) == (r as u32) * 0x10000 + (g as u32)
        * 0x100 + (b as u32)) by (bit_vector);
    (r as u32) << 16 | (g as u32) << 8 | (b as u32)
}

/// Looks a named color up in the saturated palette.
pub fn true_color_pixel(color: AnsiColor) -> (p: u32)
    ensures
        p == true_color(color),
        p <= PIXEL_MAX,
{
    match color {
        AnsiColor::Black => 0x000000,
        AnsiColor::Red => 0xFF0000,
        AnsiColor::Green => 0x00FF00,
        AnsiColor::Yellow => 0xFFFF00,
        AnsiColor::Blue => 0x0000FF,
        AnsiColor::Magenta => 0xFF00FF,
        AnsiColor::Cyan => 0x00FFFF,
        AnsiColor::White => 0xFFFFFF,
        AnsiColor::BrightBlack => 0x808080,
        AnsiColor::BrightRed => 0xFF8080,
        AnsiColor::BrightGreen => 0x80FF80,
        AnsiColor::BrightYellow => 0xFFFF80,
        AnsiColor::BrightBlue => 0x8080FF,
        AnsiColor::BrightMagenta => 0xFF80FF,
        AnsiColor::BrightCyan => 0x80FFFF,
        AnsiColor::BrightWhite => 0xC0C0C0,
    }
}

/// Looks an index up in the muted palette. There are eight entries; asking
/// for another is a mistake of the caller.
pub fn console_pixel(index: u8) -> (p: u32)
    requires
        index < 8,
    ensures
        p == console_color(index as int),
        p <= PIXEL_MAX,
{
    match index {
        0 => 0x000000,
        1 => 0x800000,
        2 => 0x008000,
        3 => 0x808000,
        4 => 0x000080,
        5 => 0x800080,
        6 => 0x008080,
        _ => 0xC0C0C0,
    }
}

/// Reads one numeric style code while `current` is in force, and returns the
/// color in force after it.
pub fn apply_sgr_code(current: u32, code: u32) -> (next: u32)
    ensures
        next == sgr_apply(current, code),
        current <= PIXEL_MAX ==> next <= PIXEL_MAX,
{
    if code == 0 {
        DEFAULT_COLOR
    } else if 30 <= code && code <= 37 {
        console_pixel((code - 30) as u8)
    } else if 40 <= code && code <= 47 {
        console_pixel((code - 40) as u8)
    } else {
        current
    }
}

} // verus!
