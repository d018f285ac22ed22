//! What a timer interrupt handler does: the LED commands it issues, the
//! counter of handled interrupts, and the acknowledgement of the timer, in
//! that order.

use vstd::prelude::*;
use crate::command::{Command, store, write_to};
use crate::timer::ARM_TIMER_CLI;

verus! {

/// The counter after one more interrupt: it wraps from `u32::MAX` to 0.
pub open spec fn next_count(counter: u32) -> u32 {
    ((counter + 1) % 0x1_0000_0000) as u32
}

/// The store that acknowledges the ARM timer interrupt.
pub open spec fn acknowledge_timer() -> Command {
    store(ARM_TIMER_CLI, 0)
}

/// One step of an interrupt handler's run.
#[derive(PartialEq, Eq, Structural, Clone, Copy, Debug)]
pub enum IrqStep {
    /// Perform a command.
    Issue(Command),
    /// Store the new count of handled interrupts.
    SaveCounter(u32),
}

/// What a timer interrupt handler does, in order, for the interrupt count
/// `counter`: issue the LED commands `leds`, save the count of one more
/// interrupt, then acknowledge the ARM timer.
pub open spec fn timer_irq_steps(leds: Seq<Command>, counter: u32) -> Seq<IrqStep> {
    leds.map_values(|c: Command| IrqStep::Issue(c)) + seq![
        IrqStep::SaveCounter(next_count(counter)),
        IrqStep::Issue(acknowledge_timer()),
    ]
}

/// The steps that issue `leds`, save the count of one more interrupt after
/// `counter`, and acknowledge the ARM timer, in that order.
pub fn timer_irq_response(leds: Vec<Command>, counter: u32) -> (r: Vec<IrqStep>)
    ensures
        r@ == timer_irq_steps(leds@, counter),
{
    let mut steps: Vec<IrqStep> = Vec::new();
    let mut i: usize = 0;
    while i < leds.len()
        invariant
            i <= leds.len(),
            steps@ == leds@.take(i as int).map_values(|c: Command| IrqStep::Issue(c)),
        decreases leds.len() - i,
    {
        steps.push(IrqStep::Issue(leds[i]));
        i = i + 1;
        assert(steps@ =~= leds@.take(i as int).map_values(|c: Command| IrqStep::Issue(c)));
    }
    steps.push(IrqStep::SaveCounter(counter.wrapping_add(1)));
    steps.push(IrqStep::Issue(write_to(ARM_TIMER_CLI, 0)));
    assert(leds@.take(leds@.len() as int) =~= leds@);
    assert(steps@ =~= timer_irq_steps(leds@, counter));
    steps
}

/// Consecutive interrupt counts have opposite parities, across the wrap from
/// `u32::MAX` to 0 too.
pub proof fn lemma_next_count_parity(counter: u32)
    ensures
        (next_count(counter) % 2 == 0) != (counter % 2 == 0),
{
}

/// Two interrupts on, an even count has moved on by 2 modulo 4, across the
/// wrap-around too.
pub proof fn lemma_next_count_quarter(counter: u32)
    requires
        counter % 2 == 0,
    ensures
        next_count(next_count(counter)) % 4 == (counter + 2) % 4,
{
}

} // verus!
