//! Second blinker: pins 20 and 21 blink in turn, timed by a bit of the system
//! timer.

use vstd::prelude::*;
use crate::command::{Command, Program, store, load, write_to, read_from, trace, after};
use crate::gpio::{GPFSEL2, GPSET0, GPCLR0, GPIO20, GPIO21, outputs_20_21, fsel2_outputs_20_21};
use crate::timer::{SYSTEMTIMERCLO, timer_bit_in_state};

verus! {

/// Bit 19 of the system timer; it flips every 2^19 microseconds.
pub const TIMER_BIT: u32 = 0x0008_0000;

/// Where the second blinker stands.
#[derive(PartialEq, Eq, Structural, Clone, Copy, Debug)]
pub enum Blinker02Step {
    ReadFsel2,
    WriteFsel2,
    SetPin20,
    ClearPin21,
    WaitTimerHigh,
    ClearPin20,
    SetPin21,
    WaitTimerLow,
}

/// The second blinker: make pins 20 and 21 outputs, then forever light pin 20
/// with pin 21 dark until the timer bit is set, and swap until it is clear.
#[derive(PartialEq, Eq, Structural, Clone, Copy, Debug)]
pub struct Blinker02 {
    pub step: Blinker02Step,
    /// The last value read from a register.
    pub latched: u32,
}

impl Blinker02 {
    /// The program at its entry point.
    pub fn new() -> (m: Self)
        ensures
            m.step == Blinker02Step::ReadFsel2,
            m.latched == 0,
    {
        Blinker02 { step: Blinker02Step::ReadFsel2, latched: 0 }
    }
}

impl Program for Blinker02 {
    open spec fn command_spec(&self) -> Command {
        match self.step {
            Blinker02Step::ReadFsel2 => load(GPFSEL2),
            Blinker02Step::WriteFsel2 => store(GPFSEL2, fsel2_outputs_20_21(self.latched)),
            Blinker02Step::SetPin20 => store(GPSET0, GPIO20),
            Blinker02Step::ClearPin21 => store(GPCLR0, GPIO21),
            Blinker02Step::WaitTimerHigh => load(SYSTEMTIMERCLO),
            Blinker02Step::ClearPin20 => store(GPCLR0, GPIO20),
            Blinker02Step::SetPin21 => store(GPSET0, GPIO21),
            Blinker02Step::WaitTimerLow => load(SYSTEMTIMERCLO),
        }
    }

    open spec fn advance_spec(&self, input: u32) -> Self {
        match self.step {
            Blinker02Step::ReadFsel2 => Blinker02 { step: Blinker02Step::WriteFsel2, latched: input },
            Blinker02Step::WriteFsel2 => Blinker02 { step: Blinker02Step::SetPin20, ..*self },
            Blinker02Step::SetPin20 => Blinker02 { step: Blinker02Step::ClearPin21, ..*self },
            Blinker02Step::ClearPin21 => Blinker02 { step: Blinker02Step::WaitTimerHigh, ..*self },
            Blinker02Step::WaitTimerHigh => if input & TIMER_BIT == TIMER_BIT {
                Blinker02 { step: Blinker02Step::ClearPin20, ..*self }
            } else {
                *self
            },
            Blinker02Step::ClearPin20 => Blinker02 { step: Blinker02Step::SetPin21, ..*self },
            Blinker02Step::SetPin21 => Blinker02 { step: Blinker02Step::WaitTimerLow, ..*self },
            Blinker02Step::WaitTimerLow => if input & TIMER_BIT == 0 {
                Blinker02 { step: Blinker02Step::SetPin20, ..*self }
            } else {
                *self
            },
        }
    }

    fn command(&self) -> (c: Command) {
        match self.step {
            Blinker02Step::ReadFsel2 => read_from(GPFSEL2),
            Blinker02Step::WriteFsel2 => write_to(GPFSEL2, outputs_20_21(self.latched)),
            Blinker02Step::SetPin20 => write_to(GPSET0, GPIO20),
            Blinker02Step::ClearPin21 => write_to(GPCLR0, GPIO21),
            Blinker02Step::WaitTimerHigh => read_from(SYSTEMTIMERCLO),
            Blinker02Step::ClearPin20 => write_to(GPCLR0, GPIO20),
            Blinker02Step::SetPin21 => write_to(GPSET0, GPIO21),
            Blinker02Step::WaitTimerLow => read_from(SYSTEMTIMERCLO),
        }
    }

    fn advance(&mut self, input: u32) {
        match self.step {
            Blinker02Step::ReadFsel2 => {
                self.latched = input;
                self.step = Blinker02Step::WriteFsel2;
            },
            Blinker02Step::WriteFsel2 => self.step = Blinker02Step::SetPin20,
            Blinker02Step::SetPin20 => self.step = Blinker02Step::ClearPin21,
            Blinker02Step::ClearPin21 => self.step = Blinker02Step::WaitTimerHigh,
            Blinker02Step::WaitTimerHigh => {
                if timer_bit_in_state(input, TIMER_BIT, TIMER_BIT) {
                    self.step = Blinker02Step::ClearPin20;
                }
            },
            Blinker02Step::ClearPin20 => self.step = Blinker02Step::SetPin21,
            Blinker02Step::SetPin21 => self.step = Blinker02Step::WaitTimerLow,
            Blinker02Step::WaitTimerLow => {
                if timer_bit_in_state(input, TIMER_BIT, 0) {
                    self.step = Blinker02Step::SetPin20;
                }
            },
        }
    }
}

/// Loop: with the timer bit set at the first wait and clear at the second,
/// one period lights pin 20 with pin 21 dark, then swaps them, and comes back
/// to where it began.
pub proof fn lemma_blinker02_period(m: Blinker02, inputs: Seq<u32>)
    requires
        m.step == Blinker02Step::SetPin20,
        inputs.len() == 6,
        inputs[2] & TIMER_BIT == TIMER_BIT,
        inputs[5] & TIMER_BIT == 0,
    ensures
        trace(m, inputs) == seq![
            store(GPSET0, GPIO20),
            store(GPCLR0, GPIO21),
            load(SYSTEMTIMERCLO),
            store(GPCLR0, GPIO20),
            store(GPSET0, GPIO21),
            load(SYSTEMTIMERCLO),
        ],
        after(m, inputs) == m,
{
    reveal_with_fuel(trace, 7);
    reveal_with_fuel(after, 7);
    assert(inputs.drop_first().drop_first().drop_first().drop_first().drop_first().drop_first()
        =~= Seq::<u32>::empty());
}

/// A wait reads the system timer again, and stays, for as long as the timer
/// bit is not in the state it waits for.
pub proof fn lemma_blinker02_waits(m: Blinker02, input: u32)
    requires
        m.step == Blinker02Step::WaitTimerHigh && input & TIMER_BIT != TIMER_BIT
            || m.step == Blinker02Step::WaitTimerLow && input & TIMER_BIT != 0,
    ensures
        m.command_spec() == load(SYSTEMTIMERCLO),
        m.advance_spec(input) == m,
{
}

/// Every register the program touches lies in the peripheral address space.
/// The program never asks the pin driver library for anything: it drives
/// its pins through the GPIO registers.
pub proof fn lemma_blinker02_peripheral_only(m: Blinker02)
    ensures
        m.command_spec().in_peripheral_space(),
        !m.command_spec().drives_pins(),
{
    crate::register::lemma_peripheral_addresses();
}

/// Setup, whatever GPFSEL2 holds: the program reads GPFSEL2 and writes it
/// back with pins 20 and 21 (slots 0 and 1) made outputs and every other pin
/// kept, then enters its loop.
pub proof fn lemma_blinker02_setup(inputs: Seq<u32>)
    requires
        inputs.len() == 2,
    ensures
        trace(Blinker02 { step: Blinker02Step::ReadFsel2, latched: 0 }, inputs) == seq![
            load(0x3F20_0008),
            store(0x3F20_0008, crate::gpio::with_output(crate::gpio::with_output(inputs[0], 0), 1)),
        ],
        crate::gpio::first_slots_made_outputs(inputs[0], crate::gpio::with_output(crate::gpio::with_output(inputs[0], 0), 1), 2),
        after(Blinker02 { step: Blinker02Step::ReadFsel2, latched: 0 }, inputs).step
            == Blinker02Step::SetPin20,
{
    crate::gpio::lemma_outputs_20_21(inputs[0]);
    reveal_with_fuel(trace, 3);
    reveal_with_fuel(after, 3);
    assert(inputs.drop_first().drop_first() =~= Seq::<u32>::empty());
}

} // verus!
