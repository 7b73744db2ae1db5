//! The kernel's GPIO writes. Pins, functions, pulls, and the set, clear and
//! pull sequences are those of the bootloader; selecting a function clears
//! the pin's field in one write and sets the new code in a second.

use vstd::prelude::*;

pub use crate::bootloader::peripherals::gpio::{
    fsel_index, fsel_shift, set_pull, set_state, Function, GpioRegister, GpioStep, Pin, Pull,
};
use crate::bootloader::peripherals::gpio::pin::{function_number, pin_number};

verus! {

/// Waits at least 150 cycles between the steps of a pull-resistor change.
pub fn idle() {
    let mut cycle: usize = 0;
    while cycle < 150
        invariant
            cycle <= 150,
        decreases 150 - cycle,
    {
        cycle += 1;
    }
}

/// The two writes that select `function` for `pin`, given the current
/// value of its function select register: first the register with the
/// pin's field cleared, then with the function's code or-ed in.
pub fn set_function(pin: Pin, function: Function, current: u32) -> (r: (GpioStep, GpioStep))
    ensures
        r.0 == GpioStep::Write(
            GpioRegister::Fsel(fsel_index(pin) as usize),
            current & !(7u32 << fsel_shift(pin)),
        ),
        r.1 == GpioStep::Write(
            GpioRegister::Fsel(fsel_index(pin) as usize),
            (current & !(7u32 << fsel_shift(pin))) | (function_number(function) << fsel_shift(pin)),
        ),
{
    let pin = pin.number() as usize;
    let offset = (pin % 10) * 3;
    let cleared = current & !(0b111u32 << offset);
    let selected = cleared | (function.number() << offset);
    (
        GpioStep::Write(GpioRegister::Fsel(pin / 10), cleared),
        GpioStep::Write(GpioRegister::Fsel(pin / 10), selected),
    )
}

} // verus!
