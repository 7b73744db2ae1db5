//! The bootloader's framebuffer.
pub mod framebuffer;
