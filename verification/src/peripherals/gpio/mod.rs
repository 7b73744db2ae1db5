//! The GPIO controller: the register writes that select a pin's function,
//! drive it, or set its pull resistor.
//!
//! The functions compute the writes; performing them (volatile accesses to
//! the controller, and the busy waits between them) is left to the caller.

pub mod pin;

pub use self::pin::{Function, Pin, Pull};

use vstd::prelude::*;
use self::pin::{function_number, pin_number, pull_number};

verus! {

/// A register of the GPIO controller; banked registers carry their index.
#[derive(Copy, Clone, PartialEq, Eq, Debug, Structural)]
pub enum GpioRegister {
    Fsel(usize),
    OutputSet(usize),
    OutputClear(usize),
    Pud,
    PudClk(usize),
}

/// One step of driving the controller: a register write, or a wait of at
/// least the given number of cycles.
#[derive(Copy, Clone, PartialEq, Eq, Debug, Structural)]
pub enum GpioStep {
    Write(GpioRegister, u32),
    Idle(usize),
}

/// The cycles to wait around a pull-resistor clock pulse.
pub const PULL_SETTLE_CYCLES: usize = 150;

/// The function select register that holds `pin`'s field.
pub open spec fn fsel_index(pin: Pin) -> int {
    (pin_number(pin) / 10) as int
}

/// The position of `pin`'s 3-bit field in its function select register.
pub open spec fn fsel_shift(pin: Pin) -> u32 {
    ((pin_number(pin) % 10) * 3) as u32
}

/// `current` with `pin`'s field replaced by the code of `function`.
pub open spec fn fsel_value(current: u32, pin: Pin, function: Function) -> u32 {
    (current & !(7u32 << fsel_shift(pin))) | (function_number(function) << fsel_shift(pin))
}

/// The index of the function select register that holds `pin`'s field: the
/// register to read before `set_function`.
pub fn function_select_register(pin: Pin) -> (r: usize)
    ensures
        r == fsel_index(pin),
        r < 6,
{
    pin.number() as usize / 10
}

/// The write that selects `function` for `pin`, given the current value of
/// its function select register.
pub fn set_function(pin: Pin, function: Function, current: u32) -> (r: GpioStep)
    ensures
        r == GpioStep::Write(GpioRegister::Fsel(fsel_index(pin) as usize), fsel_value(current, pin, function)),
{
    let number = pin.number();
    let left_shift = (number % 10) * 3;
    let index = number as usize / 10;
    let mut value = current;
    value &= !(0b111u32 << left_shift);
    value |= function.number() << left_shift;
    GpioStep::Write(GpioRegister::Fsel(index), value)
}

/// Selecting a function changes exactly the pin's 3-bit field, which then
/// holds the function's code.
pub proof fn lemma_function_select_field(current: u32, pin: Pin, function: Function)
    ensures
        (fsel_value(current, pin, function) >> fsel_shift(pin)) & 7 == function_number(function),
        fsel_value(current, pin, function) & !(7u32 << fsel_shift(pin)) == current & !(7u32
            << fsel_shift(pin)),
{
    let s = fsel_shift(pin);
    let f = function_number(function);
    assert(s <= 27);
    assert(f <= 7);
    assert(((current & !(7u32 << s)) | (f << s)) >> s & 7 == f) by (bit_vector)
        requires
            s <= 27,
            f <= 7,
    ;
    assert(((current & !(7u32 << s)) | (f << s)) & !(7u32 << s) == current & !(7u32 << s))
        by (bit_vector)
        requires
            s <= 27,
            f <= 7,
    ;
}

/// The bank of the set, clear and pull-clock registers used for `pin`:
/// bank 1 for lines above 32.
pub open spec fn state_bank(pin: Pin) -> int {
    if pin_number(pin) > 32 {
        1
    } else {
        0
    }
}

/// The bit of `pin` within its bank.
pub open spec fn state_bit(pin: Pin) -> int {
    pin_number(pin) - 32 * state_bank(pin)
}

/// A line drives through bit `n` of the first bank of set and clear
/// registers for lines below 32, and through bit `n - 32` of the second
/// bank for lines above 32.
pub proof fn lemma_output_bit(pin: Pin)
    ensures
        pin_number(pin) < 32 ==> state_bank(pin) == 0 && state_bit(pin) == pin_number(pin),
        pin_number(pin) > 32 ==> state_bank(pin) == 1 && state_bit(pin) == pin_number(pin) - 32,
{
}

/// Drives `pin` high (a write to its set register) or low (its clear
/// register). Line 32 falls into bank 0 at bit 32, past the register's
/// width; it is not accepted.
pub fn set_state(pin: Pin, state: bool) -> (r: GpioStep)
    requires
        pin_number(pin) != 32,
    ensures
        r == (if state {
            GpioStep::Write(GpioRegister::OutputSet(state_bank(pin) as usize), (1u32 << state_bit(pin)) as u32)
        } else {
            GpioStep::Write(GpioRegister::OutputClear(state_bank(pin) as usize), (1u32 << state_bit(pin)) as u32)
        }),
{
    let number = pin.number() as usize;
    let index: usize = if number > 32 {
        1
    } else {
        0
    };
    let left_shift = number - (32 * index);
    if state {
        GpioStep::Write(GpioRegister::OutputSet(index), 1u32 << left_shift)
    } else {
        GpioStep::Write(GpioRegister::OutputClear(index), 1u32 << left_shift)
    }
}

/// The sequence that sets `pin`'s pull resistor: write the pull code, wait,
/// clock it into the pin, wait, then clear both registers. Line 32 is not
/// accepted (see `set_state`).
pub fn set_pull(pin: Pin, pull: Pull) -> (r: Vec<GpioStep>)
    requires
        pin_number(pin) != 32,
    ensures
        r@ == seq![
            GpioStep::Write(GpioRegister::Pud, pull_number(pull)),
            GpioStep::Idle(PULL_SETTLE_CYCLES),
            GpioStep::Write(GpioRegister::PudClk(state_bank(pin) as usize), (1u32 << state_bit(pin)) as u32),
            GpioStep::Idle(PULL_SETTLE_CYCLES),
            GpioStep::Write(GpioRegister::Pud, 0),
            GpioStep::Write(GpioRegister::PudClk(state_bank(pin) as usize), 0),
        ],
{
    let number = pin.number() as usize;
    let index: usize = if number > 32 {
        1
    } else {
        0
    };
    let left_shift = number - (32 * index);
    let mut steps: Vec<GpioStep> = Vec::new();
    steps.push(GpioStep::Write(GpioRegister::Pud, pull.number()));
    steps.push(GpioStep::Idle(PULL_SETTLE_CYCLES));
    steps.push(GpioStep::Write(GpioRegister::PudClk(index), 1u32 << left_shift));
    steps.push(GpioStep::Idle(PULL_SETTLE_CYCLES));
    steps.push(GpioStep::Write(GpioRegister::Pud, 0));
    steps.push(GpioStep::Write(GpioRegister::PudClk(index), 0));
    assert(steps@ =~= seq![
        GpioStep::Write(GpioRegister::Pud, pull_number(pull)),
        GpioStep::Idle(PULL_SETTLE_CYCLES),
        GpioStep::Write(GpioRegister::PudClk(state_bank(pin) as usize), (1u32 << state_bit(pin)) as u32),
        GpioStep::Idle(PULL_SETTLE_CYCLES),
        GpioStep::Write(GpioRegister::Pud, 0),
        GpioStep::Write(GpioRegister::PudClk(state_bank(pin) as usize), 0),
    ]);
    steps
}

} // verus!
