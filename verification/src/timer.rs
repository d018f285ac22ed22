//! System timer and ARM timer: register addresses and the tests that end a wait.

use vstd::prelude::*;

verus! {

/// Lower 32 bits of the free-running system timer.
pub const SYSTEMTIMERCLO: usize = 0x3F00_3004;
/// ARM timer load register.
pub const ARM_TIMER_LOD: usize = 0x3F00_B400;
/// ARM timer control register.
pub const ARM_TIMER_CTL: usize = 0x3F00_B408;
/// ARM timer interrupt clear register.
pub const ARM_TIMER_CLI: usize = 0x3F00_B40C;
/// ARM timer raw interrupt register.
pub const ARM_TIMER_RIS: usize = 0x3F00_B410;
/// ARM timer masked interrupt register.
pub const ARM_TIMER_MIS: usize = 0x3F00_B414;
/// ARM timer reload register.
pub const ARM_TIMER_RLD: usize = 0x3F00_B418;
/// ARM timer pre-divider register.
pub const ARM_TIMER_DIV: usize = 0x3F00_B41C;
/// ARM timer free-running counter.
pub const ARM_TIMER_CNT: usize = 0x3F00_B420;

/// Interrupt controller: basic pending register.
pub const IRQ_BASIC_PENDING: usize = 0x3F00_B200;
/// Interrupt controller: basic interrupt enable register.
pub const IRQ_BASIC_ENABLE: usize = 0x3F00_B218;
/// Interrupt controller: basic interrupt disable register.
pub const IRQ_BASIC_DISABLE: usize = 0x3F00_B224;

/// Pre-divider that brings the ~250 MHz system clock to about a million ticks
/// per second.
pub const TIMER_PREDIVIDER: u32 = 0x0000_00F9;

/// Ticks counted from `last` to `current` by a 32-bit counter that wraps.
pub open spec fn ticks_since(current: u32, last: u32) -> int {
    (current - last) % 0x1_0000_0000
}

/// Tells whether the bits of `bit` in a timer reading equal `state`.
pub fn timer_bit_in_state(timer_val: u32, bit: u32, state: u32) -> (b: bool)
    ensures
        b == (timer_val & bit == state),
{
    (timer_val & bit) == state
}

/// Ticks from `last` to `current` of a wrapping 32-bit counter.
pub fn elapsed_ticks(current: u32, last: u32) -> (t: u32)
    ensures
        t == ticks_since(current, last),
{
    current.wrapping_sub(last)
}

/// Tells whether a raw or masked interrupt status register reports the timer
/// interrupt.
pub fn timer_irq_raised(status: u32) -> (b: bool)
    ensures
        b == (status > 0),
{
    status > 0
}

/// Tells whether the basic pending register reports the ARM timer interrupt
/// (its bit 0).
pub fn basic_timer_irq_pending(pending: u32) -> (b: bool)
    ensures
        b == (pending & 1 > 0),
        b == (pending % 2 == 1),
{
    assert((pending & 1 > 0) == (pending % 2 == 1)) by (bit_vector);
    (pending & 1) > 0
}

/// Counting ticks is right across the counter's wrap-around: `d` ticks after
/// `last`, the counter reads `last + d` modulo 2^32, and the ticks since
/// `last` are `d`.
pub proof fn lemma_ticks_since_wrapping(last: u32, d: u32)
    ensures
        ticks_since(((last + d) % 0x1_0000_0000) as u32, last) == d,
{
}

} // verus!
