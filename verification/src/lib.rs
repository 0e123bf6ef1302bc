//! A text-mode display driver for a memory-mapped character surface.
//!
//! The surface is a fixed grid of two-byte cells that the display hardware
//! reads on its own. A [`Writer`] appends symbols to the bottom row, wraps at
//! the right edge and scrolls the grid upwards; every operation is specified
//! over a mathematical model of the screen and proved against it.

pub mod buffer;
pub mod cell;
pub mod color;
pub mod console;
pub mod laws;
pub mod screen;
pub mod writer;

pub use crate::color::Color;
pub use crate::color::ColorCode;
pub use crate::cell::ScreenChar;
pub use crate::buffer::Buffer;
pub use crate::screen::Screen;
pub use crate::writer::Writer;
pub use crate::console::_print;
