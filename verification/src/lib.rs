//! Text-mode display driver: an 80x25 grid of character cells behind volatile
//! accesses, a writer that renders a byte stream into it with wrapping and
//! scrolling, and the register writes that move the hardware cursor.

pub mod buffer;
pub mod color;
pub mod cursor;
pub mod screen;
pub mod writer;

pub use buffer::{Buffer, ScreenChar, BUFFER_HEIGHT, BUFFER_WIDTH};
pub use color::{Color, ColorCode};
pub use cursor::{cursor_position_writes, PortWrite};
pub use writer::Writer;
