//! Display and input core of a small bare-metal kernel, modelled as a
//! verified library.
//!
//! The pixel surface, character grid, terminal writer, interrupt dispatch
//! table, timer tick counter and keyboard driver are all plain data
//! structures here; the hardware they mirror (framebuffer memory, the
//! interrupt controller, the PS/2 data port) is driven by a thin unverified
//! shell that owns the singletons and hands them to these functions.

pub mod color;
pub mod screen_char;
pub mod vector;
pub mod chars;
pub mod buffer;
pub mod char_writer;
pub mod terminal;
pub mod interrupts;
pub mod hardware_interrupts;
pub mod keyboard_driver;
pub mod log;
pub mod rand;
pub mod display;
pub mod panic_screen;
pub mod testing;
