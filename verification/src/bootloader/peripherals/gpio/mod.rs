//! The bootloader's GPIO controller writes. The set, clear and pull-clock
//! registers are banked by 32 lines: lines 0 to 31 in bank 0, the rest in
//! bank 1.

pub mod pin;

pub use self::pin::{Function, Pin, Pull};
pub use crate::peripherals::gpio::{GpioRegister, GpioStep, PULL_SETTLE_CYCLES};

use vstd::prelude::*;
use self::pin::{function_number, pin_number, pull_number};

verus! {

/// The function select register that holds `pin`'s field.
pub open spec fn fsel_index(pin: Pin) -> int {
    (pin_number(pin) / 10) as int
}

/// The position of `pin`'s 3-bit field in its function select register.
pub open spec fn fsel_shift(pin: Pin) -> u32 {
    ((pin_number(pin) % 10) * 3) as u32
}

/// `current` with `pin`'s field replaced by the code of `function`.
pub open spec fn fsel_value(current: u32, pin: Pin, function: Function) -> u32 {
    (current & !(7u32 << fsel_shift(pin))) | (function_number(function) << fsel_shift(pin))
}

/// The bank of `pin`'s set, clear and pull-clock bits.
pub open spec fn bank(pin: Pin) -> int {
    if pin_number(pin) < 32 {
        0
    } else {
        1
    }
}

/// The bit of `pin` within its bank.
pub open spec fn bank_bit(pin: Pin) -> int {
    pin_number(pin) - 32 * bank(pin)
}

/// The index of the function select register to read before
/// `set_function`.
pub fn function_select_register(pin: Pin) -> (r: usize)
    ensures
        r == fsel_index(pin),
        r < 6,
{
    pin.number() as usize / 10
}

/// The write that selects `function` for `pin`, given the current value of
/// its function select register.
pub fn set_function(pin: Pin, function: Function, current: u32) -> (r: GpioStep)
    ensures
        r == GpioStep::Write(GpioRegister::Fsel(fsel_index(pin) as usize), fsel_value(current, pin, function)),
{
    let pin = pin.number() as usize;
    let offset = (pin % 10) * 3;
    let mut value = current;
    value &= !(0b111u32 << offset);
    value |= function.number() << offset;
    GpioStep::Write(GpioRegister::Fsel(pin / 10), value)
}

/// Drives `pin` high (a write to its set register) or low (its clear
/// register).
pub fn set_state(pin: Pin, state: bool) -> (r: GpioStep)
    ensures
        r == (if state {
            GpioStep::Write(GpioRegister::OutputSet(bank(pin) as usize), (1u32 << bank_bit(pin)) as u32)
        } else {
            GpioStep::Write(GpioRegister::OutputClear(bank(pin) as usize), (1u32 << bank_bit(pin)) as u32)
        }),
{
    let pin = pin.number() as usize;
    if state {
        if pin <= 31 {
            GpioStep::Write(GpioRegister::OutputSet(0), 1u32 << pin)
        } else {
            GpioStep::Write(GpioRegister::OutputSet(1), 1u32 << (pin - 32))
        }
    } else {
        if pin <= 31 {
            GpioStep::Write(GpioRegister::OutputClear(0), 1u32 << pin)
        } else {
            GpioStep::Write(GpioRegister::OutputClear(1), 1u32 << (pin - 32))
        }
    }
}

/// The sequence that sets `pin`'s pull resistor: write the pull code, wait,
/// clock it into the pin, wait, then clear both registers.
pub fn set_pull(pin: Pin, pull: Pull) -> (r: Vec<GpioStep>)
    ensures
        r@ == seq![
            GpioStep::Write(GpioRegister::Pud, pull_number(pull)),
            GpioStep::Idle(PULL_SETTLE_CYCLES),
            GpioStep::Write(GpioRegister::PudClk(bank(pin) as usize), (1u32 << bank_bit(pin)) as u32),
            GpioStep::Idle(PULL_SETTLE_CYCLES),
            GpioStep::Write(GpioRegister::Pud, 0),
            GpioStep::Write(GpioRegister::PudClk(bank(pin) as usize), 0),
        ],
{
    let number = pin.number() as usize;
    let mut steps: Vec<GpioStep> = Vec::new();
    steps.push(GpioStep::Write(GpioRegister::Pud, pull.number()));
    steps.push(GpioStep::Idle(PULL_SETTLE_CYCLES));
    if number <= 31 {
        steps.push(GpioStep::Write(GpioRegister::PudClk(0), 1u32 << number));
    } else {
        steps.push(GpioStep::Write(GpioRegister::PudClk(1), 1u32 << (number - 32)));
    }
    steps.push(GpioStep::Idle(PULL_SETTLE_CYCLES));
    steps.push(GpioStep::Write(GpioRegister::Pud, 0));
    if number <= 31 {
        steps.push(GpioStep::Write(GpioRegister::PudClk(0), 0));
    } else {
        steps.push(GpioStep::Write(GpioRegister::PudClk(1), 0));
    }
    assert(steps@ =~= seq![
        GpioStep::Write(GpioRegister::Pud, pull_number(pull)),
        GpioStep::Idle(PULL_SETTLE_CYCLES),
        GpioStep::Write(GpioRegister::PudClk(bank(pin) as usize), (1u32 << bank_bit(pin)) as u32),
        GpioStep::Idle(PULL_SETTLE_CYCLES),
        GpioStep::Write(GpioRegister::Pud, 0),
        GpioStep::Write(GpioRegister::PudClk(bank(pin) as usize), 0),
    ]);
    steps
}

} // verus!
