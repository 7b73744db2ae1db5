//! The kernel's graphics.

pub mod framebuffer;
