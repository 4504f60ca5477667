//! Text console of a freestanding kernel: a cursor-tracking writer over the
//! 80x25 VGA text buffer, with its behaviour stated over a mathematical model
//! of the screen and proved.

pub mod vga_buffer;
