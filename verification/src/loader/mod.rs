//! The loader: a host program that hands kernel images to the bootloader
//! and forwards keyboard input. Here: its command line and configuration
//! language, its keyboard translation, and the framing of a transmission.

pub mod text;
pub mod common;
pub mod input;
pub mod serial;
