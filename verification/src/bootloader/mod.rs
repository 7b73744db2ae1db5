//! The bootloader: its mailbox messages, GPIO, mini UART and framebuffer.

pub mod graphics;
pub mod peripherals;
