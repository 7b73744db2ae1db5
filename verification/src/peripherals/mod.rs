//! The peripherals of the kernel that runs the game.

pub mod gpio;
pub mod interrupts;
pub mod logger;
pub mod mailbox;
pub mod timer;

use vstd::prelude::*;
use crate::bootloader::peripherals::uart::{self, UartSetup};
use self::gpio::Function;

verus! {

/// The kernel's peripheral setup: the mini UART (given the current value of
/// GPIO function select register 1), then the write that enables the timer
/// interrupts.
pub fn initialize(fsel1: u32) -> (r: (UartSetup, (usize, u32)))
    ensures
        r.0.registers@ == uart::setup_registers(),
        r.0.gpio@ == uart::route_pin(crate::bootloader::peripherals::gpio::Pin::V14, fsel1) + uart::route_pin(
            crate::bootloader::peripherals::gpio::Pin::V15,
            crate::bootloader::peripherals::gpio::fsel_value(fsel1, crate::bootloader::peripherals::gpio::Pin::V14, Function::Alternate5),
        ),
        r.0.enable == (uart::UartRegister::AuxMuCntl, 3u32),
        r.1 == (0usize, interrupts::system_timer_interrupt(1) | interrupts::system_timer_interrupt(3)),
{
    let setup = uart::initialize(fsel1);
    let enable = interrupts::enable_interrupt_controller();
    (setup, enable)
}

} // verus!
