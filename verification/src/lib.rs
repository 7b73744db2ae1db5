//! A verified model of the alb1 Raspberry Pi system: the peg solitaire game
//! that the kernel runs, its drawing code, the firmware mailbox protocol,
//! the peripheral register arithmetic, the heap allocator, and the loader's
//! parsing logic.

pub mod steckhalma;
pub mod steckhalma_draw;
pub mod property_tags;
pub mod peripherals;
pub mod game;
pub mod graphics;
pub mod bootloader;
pub mod memory;
pub mod kernel;
pub mod loader;
