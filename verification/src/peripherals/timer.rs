//! The system timer: the compare values that schedule a timer interrupt and
//! the status value that acknowledges one.

use vstd::prelude::*;

verus! {

/// Ticks per second of the system timer.
pub const CLOCK_HZ: u32 = 1000000;

/// The four compare channels of the system timer.
#[derive(Copy, Clone, PartialEq, Eq, Debug, Structural)]
pub enum Timer {
    Timer1,
    Timer2,
    Timer3,
    Timer4,
}

pub open spec fn timer_number(t: Timer) -> u32 {
    match t {
        Timer::Timer1 => 0,
        Timer::Timer2 => 1,
        Timer::Timer3 => 2,
        Timer::Timer4 => 3,
    }
}

impl Timer {
    pub fn number(&self) -> (r: u32)
        ensures
            r == timer_number(*self),
    {
        match self {
            Timer::Timer1 => 0,
            Timer::Timer2 => 1,
            Timer::Timer3 => 2,
            Timer::Timer4 => 3,
        }
    }
}

/// The compare register to write and its value, so that `timer` fires
/// `seconds` seconds after the counter value `counter_lower` (wrapping
/// around the 32-bit counter).
pub fn set_timer(timer: Timer, seconds: u32, counter_lower: u32) -> (r: (usize, u32))
    requires
        CLOCK_HZ * seconds <= u32::MAX,
    ensures
        r.0 == timer_number(timer),
        r.1 == vstd::wrapping::u32_specs::wrapping_add(counter_lower, (CLOCK_HZ * seconds) as u32),
{
    let timer_value = counter_lower.wrapping_add(CLOCK_HZ * seconds);
    (timer.number() as usize, timer_value)
}

/// The control/status value that acknowledges `timer`'s interrupt: the
/// current value with the timer's match bit set.
pub fn clear_timer_interrupt(timer: Timer, control_status: u32) -> (r: u32)
    ensures
        r == control_status | (1u32 << timer_number(timer)),
{
    control_status | 1u32 << timer.number()
}

} // verus!
