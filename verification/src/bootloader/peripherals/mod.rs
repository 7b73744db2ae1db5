//! The bootloader's peripherals.

pub mod gpio;
pub mod mailbox;
pub mod uart;

use vstd::prelude::*;
use self::gpio::{fsel_value, Function, Pin};
use self::uart::{setup_registers, route_pin, UartRegister, UartSetup};

verus! {

/// The bootloader's peripheral setup: the mini UART, given the current value
/// of GPIO function select register 1.
pub fn initialize(fsel1: u32) -> (r: UartSetup)
    ensures
        r.gpio@ == route_pin(Pin::V14, fsel1) + route_pin(
            Pin::V15,
            fsel_value(fsel1, Pin::V14, Function::Alternate5),
        ),
        r.enable == (UartRegister::AuxMuCntl, 3u32),
        r.registers@ == setup_registers(),
{
    uart::initialize(fsel1)
}

} // verus!
