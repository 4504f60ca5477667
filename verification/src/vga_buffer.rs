//! The VGA text buffer driver.
//!
//! * [`color`]: the sixteen hardware colors and the attribute byte.
//! * [`surface`]: the grid of character cells and its volatile accesses.
//! * [`screen`]: the model of the console that the contracts speak of.
//! * [`writer`]: the cursor-tracking writer over the surface.
//! * [`console`]: the writer behind a spin lock, and printing through it.

pub mod color;
pub mod console;
pub mod screen;
pub mod surface;
pub mod writer;

pub use self::color::{Color, ColorCode};
pub use self::console::_print;
pub use self::surface::{Buffer, ScreenChar, BUFFER_HEIGHT, BUFFER_WIDTH};
pub use self::writer::Writer;
