//! First blinker: pins 35 and 47 blink in turn, timed by a busy loop.

use vstd::prelude::*;
use crate::command::{Command, Program, store, load, write_to, read_from, trace, after};
use crate::gpio::{GPFSEL3, GPFSEL4, GPSET1, GPCLR1, GPIO35, GPIO47, with_output, select_output};

verus! {

/// Iterations of the busy loop between two changes of the LEDs.
pub const SLEEP_ITERATIONS: u32 = 100_000;

/// Where the first blinker stands.
#[derive(PartialEq, Eq, Structural, Clone, Copy, Debug)]
pub enum Blinker01Step {
    ReadFsel3,
    WriteFsel3,
    ReadFsel4,
    WriteFsel4,
    SetPin47,
    ClearPin35,
    SleepLit,
    ClearPin47,
    SetPin35,
    SleepDark,
}

/// The first blinker: make pins 35 and 47 outputs, then forever light pin 47
/// with pin 35 dark, wait, and swap.
#[derive(PartialEq, Eq, Structural, Clone, Copy, Debug)]
pub struct Blinker01 {
    pub step: Blinker01Step,
    /// The last value read from a register.
    pub latched: u32,
}

impl Blinker01 {
    /// The program at its entry point.
    pub fn new() -> (m: Self)
        ensures
            m.step == Blinker01Step::ReadFsel3,
            m.latched == 0,
    {
        Blinker01 { step: Blinker01Step::ReadFsel3, latched: 0 }
    }
}

impl Program for Blinker01 {
    open spec fn command_spec(&self) -> Command {
        match self.step {
            Blinker01Step::ReadFsel3 => load(GPFSEL3),
            Blinker01Step::WriteFsel3 => store(GPFSEL3, with_output(self.latched, 5)),
            Blinker01Step::ReadFsel4 => load(GPFSEL4),
            Blinker01Step::WriteFsel4 => store(GPFSEL4, with_output(self.latched, 7)),
            Blinker01Step::SetPin47 => store(GPSET1, GPIO47),
            Blinker01Step::ClearPin35 => store(GPCLR1, GPIO35),
            Blinker01Step::SleepLit => Command::Sleep { iterations: SLEEP_ITERATIONS },
            Blinker01Step::ClearPin47 => store(GPCLR1, GPIO47),
            Blinker01Step::SetPin35 => store(GPSET1, GPIO35),
            Blinker01Step::SleepDark => Command::Sleep { iterations: SLEEP_ITERATIONS },
        }
    }

    open spec fn advance_spec(&self, input: u32) -> Self {
        let step = match self.step {
            Blinker01Step::ReadFsel3 => Blinker01Step::WriteFsel3,
            Blinker01Step::WriteFsel3 => Blinker01Step::ReadFsel4,
            Blinker01Step::ReadFsel4 => Blinker01Step::WriteFsel4,
            Blinker01Step::WriteFsel4 => Blinker01Step::SetPin47,
            Blinker01Step::SetPin47 => Blinker01Step::ClearPin35,
            Blinker01Step::ClearPin35 => Blinker01Step::SleepLit,
            Blinker01Step::SleepLit => Blinker01Step::ClearPin47,
            Blinker01Step::ClearPin47 => Blinker01Step::SetPin35,
            Blinker01Step::SetPin35 => Blinker01Step::SleepDark,
            Blinker01Step::SleepDark => Blinker01Step::SetPin47,
        };
        let latched = match self.step {
            Blinker01Step::ReadFsel3 | Blinker01Step::ReadFsel4 => input,
            _ => self.latched,
        };
        Blinker01 { step, latched }
    }

    fn command(&self) -> (c: Command) {
        match self.step {
            Blinker01Step::ReadFsel3 => read_from(GPFSEL3),
            Blinker01Step::WriteFsel3 => write_to(GPFSEL3, select_output(self.latched, 5)),
            Blinker01Step::ReadFsel4 => read_from(GPFSEL4),
            Blinker01Step::WriteFsel4 => write_to(GPFSEL4, select_output(self.latched, 7)),
            Blinker01Step::SetPin47 => write_to(GPSET1, GPIO47),
            Blinker01Step::ClearPin35 => write_to(GPCLR1, GPIO35),
            Blinker01Step::SleepLit => Command::Sleep { iterations: SLEEP_ITERATIONS },
            Blinker01Step::ClearPin47 => write_to(GPCLR1, GPIO47),
            Blinker01Step::SetPin35 => write_to(GPSET1, GPIO35),
            Blinker01Step::SleepDark => Command::Sleep { iterations: SLEEP_ITERATIONS },
        }
    }

    fn advance(&mut self, input: u32) {
        match self.step {
            Blinker01Step::ReadFsel3 => {
                self.latched = input;
                self.step = Blinker01Step::WriteFsel3;
            },
            Blinker01Step::WriteFsel3 => self.step = Blinker01Step::ReadFsel4,
            Blinker01Step::ReadFsel4 => {
                self.latched = input;
                self.step = Blinker01Step::WriteFsel4;
            },
            Blinker01Step::WriteFsel4 => self.step = Blinker01Step::SetPin47,
            Blinker01Step::SetPin47 => self.step = Blinker01Step::ClearPin35,
            Blinker01Step::ClearPin35 => self.step = Blinker01Step::SleepLit,
            Blinker01Step::SleepLit => self.step = Blinker01Step::ClearPin47,
            Blinker01Step::ClearPin47 => self.step = Blinker01Step::SetPin35,
            Blinker01Step::SetPin35 => self.step = Blinker01Step::SleepDark,
            Blinker01Step::SleepDark => self.step = Blinker01Step::SetPin47,
        }
    }
}

/// Setup: the program reads GPFSEL3 and GPFSEL4 and writes each back with
/// pin 35, respectively pin 47, made an output, then enters its loop.
pub proof fn lemma_blinker01_setup(inputs: Seq<u32>)
    requires
        inputs.len() == 4,
    ensures
        trace(Blinker01 { step: Blinker01Step::ReadFsel3, latched: 0 }, inputs) == seq![
            load(GPFSEL3),
            store(GPFSEL3, with_output(inputs[0], 5)),
            load(GPFSEL4),
            store(GPFSEL4, with_output(inputs[2], 7)),
        ],
        after(Blinker01 { step: Blinker01Step::ReadFsel3, latched: 0 }, inputs).step
            == Blinker01Step::SetPin47,
{
    reveal_with_fuel(trace, 5);
    reveal_with_fuel(after, 5);
    let m0 = Blinker01 { step: Blinker01Step::ReadFsel3, latched: 0 };
    assert(inputs.drop_first().drop_first().drop_first().drop_first() =~= Seq::<u32>::empty());
}

/// Loop: one period lights pin 47 with pin 35 dark, waits, swaps them, waits,
/// and comes back to where it began, whatever the reads return.
pub proof fn lemma_blinker01_period(m: Blinker01, inputs: Seq<u32>)
    requires
        m.step == Blinker01Step::SetPin47,
        inputs.len() == 6,
    ensures
        trace(m, inputs) == seq![
            store(GPSET1, GPIO47),
            store(GPCLR1, GPIO35),
            Command::Sleep { iterations: SLEEP_ITERATIONS },
            store(GPCLR1, GPIO47),
            store(GPSET1, GPIO35),
            Command::Sleep { iterations: SLEEP_ITERATIONS },
        ],
        after(m, inputs).step == Blinker01Step::SetPin47,
{
    reveal_with_fuel(trace, 7);
    reveal_with_fuel(after, 7);
    assert(inputs.drop_first().drop_first().drop_first().drop_first().drop_first().drop_first()
        =~= Seq::<u32>::empty());
}

/// Every register the program touches lies in the peripheral address space.
/// The program never asks the pin driver library for anything: it drives
/// its pins through the GPIO registers.
pub proof fn lemma_blinker01_peripheral_only(m: Blinker01)
    ensures
        m.command_spec().in_peripheral_space(),
        !m.command_spec().drives_pins(),
{
    crate::register::lemma_peripheral_addresses();
}

} // verus!
