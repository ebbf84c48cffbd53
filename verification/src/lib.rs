//! Driver logic for a 250x122 monochrome e-paper panel behind an
//! SSD1675-class controller.
//!
//! The driver owns a packed one-bit-per-pixel framebuffer and turns drawing
//! and refresh requests into the exact sequence of line operations that the
//! controller expects. It never touches hardware itself: every operation is
//! appended to an outgoing queue that the surrounding firmware plays back on
//! its bus and pins.

pub mod bus;
pub mod epd;
pub mod instr;
pub mod panel;
pub mod pixels;
pub mod sequencing;
pub mod waveform;
pub mod window;
