//! The interrupt controller: which interrupts are enabled, and what a
//! pending timer interrupt asks for.

use vstd::prelude::*;
use crate::peripherals::timer::Timer;

verus! {

/// The pending/enable bit of system timer `i`.
pub open spec fn system_timer_interrupt(i: int) -> u32 {
    if i == 0 {
        1
    } else if i == 1 {
        2
    } else if i == 2 {
        4
    } else {
        8
    }
}

/// System timer `i` (0 to 3) has bit `i` of the pending and enable
/// registers; timers 1 and 3 together are the bits 2 and 8, 10.
pub proof fn lemma_timer_bits()
    ensures
        system_timer_interrupt(0) == 1,
        system_timer_interrupt(1) == 2,
        system_timer_interrupt(2) == 4,
        system_timer_interrupt(3) == 8,
        system_timer_interrupt(1) | system_timer_interrupt(3) == 10,
{
    assert(2u32 | 8u32 == 10) by (bit_vector);
}

/// The write that enables the interrupts of system timers 1 and 3: index 0
/// of the enable registers, and its value.
pub fn enable_interrupt_controller() -> (r: (usize, u32))
    ensures
        r == (0usize, system_timer_interrupt(1) | system_timer_interrupt(3)),
{
    (0, 2u32 | 8u32)
}

/// The timers to acknowledge and re-arm for the pending bits `pending`, with
/// the seconds until each fires again: timer 1 every 2 seconds, timer 3
/// every 4, in that order.
pub fn handle_irq(pending: u32) -> (r: Vec<(Timer, u32)>)
    ensures
        r@ == (if pending & system_timer_interrupt(1) != 0 {
            seq![(Timer::Timer1, 2u32)]
        } else {
            Seq::<(Timer, u32)>::empty()
        }) + (if pending & system_timer_interrupt(3) != 0 {
            seq![(Timer::Timer3, 4u32)]
        } else {
            Seq::<(Timer, u32)>::empty()
        }),
{
    let mut actions: Vec<(Timer, u32)> = Vec::new();
    if pending & 2 != 0 {
        actions.push((Timer::Timer1, 2));
    }
    if pending & 8 != 0 {
        actions.push((Timer::Timer3, 4));
    }
    assert(actions@ =~= (if pending & system_timer_interrupt(1) != 0 {
        seq![(Timer::Timer1, 2u32)]
    } else {
        Seq::<(Timer, u32)>::empty()
    }) + (if pending & system_timer_interrupt(3) != 0 {
        seq![(Timer::Timer3, 4u32)]
    } else {
        Seq::<(Timer, u32)>::empty()
    }));
    actions
}

} // verus!
