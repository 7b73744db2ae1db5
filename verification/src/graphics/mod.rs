//! Drawing into the frame memory of the display.

pub mod pixels;
pub mod framebuffer;
