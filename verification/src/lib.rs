//! Cell-grid rendering for a pixel-addressed window surface.

pub mod backend;
pub mod clear;
pub mod color;
pub mod content;
pub mod cursor;
pub mod decoder;
pub mod draw;
pub mod grid;
pub mod text;

pub use backend::XBackend;
pub use content::{Printable, XContentProcessor};
pub use decoder::decode_ansi;
