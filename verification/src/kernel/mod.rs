//! The kernel of the first system generation: its letters to the firmware,
//! GPIO, its framebuffer setup, and keyboard events forwarded by the loader.

pub mod graphics;
pub mod peripherals;
