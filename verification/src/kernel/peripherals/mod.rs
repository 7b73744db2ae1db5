//! The kernel's peripherals.

pub mod gpio;
pub mod input;
pub mod mailman;

use vstd::prelude::*;
use crate::property_tags::{appended, pushed};
use self::gpio::{Function, Pin};
use self::mailman::{letter_tag_words, Letter, MailboxTag};

verus! {

/// The letter that switches the activity LED (firmware LED 130) off.
pub open spec fn led_off_words() -> Seq<u32> {
    let cleared = Seq::new(32, |i: int| 0u32).update(0, 8).update(1, 0);
    pushed(appended(cleared, letter_tag_words(MailboxTag::SetPowerState, seq![130u32, 0u32])), 0)
}

/// The header pins the kernel drives: 40, 11, 12, 13, 15, 16, 18, 29, 31.
pub open spec fn output_pins() -> Seq<(Pin, Function)> {
    seq![
        (Pin::V21, Function::Output),
        (Pin::V17, Function::Output),
        (Pin::V18, Function::Output),
        (Pin::V27, Function::Output),
        (Pin::V22, Function::Output),
        (Pin::V23, Function::Output),
        (Pin::V24, Function::Output),
        (Pin::V5, Function::Output),
        (Pin::V6, Function::Output),
    ]
}

/// The kernel's peripheral setup: the letter that turns the activity LED
/// off, and the pins to make outputs, in order.
pub fn initialize() -> (r: (Letter, Vec<(Pin, Function)>))
    ensures
        r.0@ == led_off_words(),
        r.1@ == output_pins(),
{
    let mut letter = Letter::new();
    letter.clear_tags();
    letter.push_tag(MailboxTag::SetPowerState, &[130, 0]);
    letter.push_end_tag();
    let mut pins: Vec<(Pin, Function)> = Vec::new();
    pins.push((Pin::P40, Function::Output));
    pins.push((Pin::P11, Function::Output));
    pins.push((Pin::P12, Function::Output));
    pins.push((Pin::P13, Function::Output));
    pins.push((Pin::P15, Function::Output));
    pins.push((Pin::P16, Function::Output));
    pins.push((Pin::P18, Function::Output));
    pins.push((Pin::P29, Function::Output));
    pins.push((Pin::P31, Function::Output));
    assert(pins@ =~= output_pins());
    (letter, pins)
}

} // verus!
