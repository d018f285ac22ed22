//! Third blinker: pins 20 and 21 blink in turn and pin 22 at half their rate,
//! timed by the free-running counter of the ARM timer.

use vstd::prelude::*;
use crate::command::{Command, Program, store, load, write_to, read_from, trace, after};
use crate::gpio::{
    GPFSEL2, GPSET0, GPCLR0, GPIO20, GPIO21, GPIO22, outputs_20_to_22, fsel2_outputs_20_to_22,
    set_clear_register, set_clear_for,
};
use crate::timer::{ARM_TIMER_CTL, ARM_TIMER_CNT, ticks_since, elapsed_ticks};

verus! {

/// Counter ticks (about a microsecond each) between two changes of the LEDs.
pub const TIMEOUT: u32 = 400_000;

/// ARM timer control value that starts the free-running counter with a
/// pre-divider of 0xF9, about a million ticks per second.
pub const TIMER_CONTROL: u32 = 0x00F9_0200;

/// The counter value that a wait started at `last_state` ends on:
/// `TIMEOUT` ticks later, modulo 2^32.
pub open spec fn next_deadline(last_state: u32) -> u32 {
    ((last_state + TIMEOUT) % 0x1_0000_0000) as u32
}

/// One poll of the wait for a timeout: given the counter reading `current`,
/// `None` while fewer than `timeout` ticks have passed since `last_state`,
/// else the state to wait from next, `last_state` advanced by `TIMEOUT`.
pub fn poll_timeout(last_state: u32, timeout: u32, current: u32) -> (r: Option<u32>)
    ensures
        r == (if ticks_since(current, last_state) >= timeout {
            Some(next_deadline(last_state))
        } else {
            None
        }),
{
    if elapsed_ticks(current, last_state) >= timeout {
        Some(last_state.wrapping_add(TIMEOUT))
    } else {
        None
    }
}

/// Where the third blinker stands.
#[derive(PartialEq, Eq, Structural, Clone, Copy, Debug)]
pub enum Blinker03Step {
    StartTimer,
    ReadFsel2,
    WriteFsel2,
    ReadCounter,
    SetPin20,
    ClearPin21,
    WriteBlue,
    WaitLit,
    ClearPin20,
    SetPin21,
    WaitDark,
}

/// The third blinker: start the counter, make pins 20 to 22 outputs, then
/// forever light pin 20 with pin 21 dark and switch pin 22, wait `TIMEOUT`
/// ticks, swap pins 20 and 21, and wait again.
#[derive(PartialEq, Eq, Structural, Clone, Copy, Debug)]
pub struct Blinker03 {
    pub step: Blinker03Step,
    /// The last value read from a register.
    pub latched: u32,
    /// The counter value the current wait is measured from.
    pub timer_state: u32,
    /// Whether pin 22 is lit (through GPSET0) rather than darkened (through
    /// GPCLR0) when it is next switched.
    pub blue_set: bool,
}

impl Blinker03 {
    /// The program at its entry point.
    pub fn new() -> (m: Self)
        ensures
            m.step == Blinker03Step::StartTimer,
            m.latched == 0,
            m.timer_state == 0,
            m.blue_set,
    {
        Blinker03 { step: Blinker03Step::StartTimer, latched: 0, timer_state: 0, blue_set: true }
    }
}

impl Program for Blinker03 {
    open spec fn command_spec(&self) -> Command {
        match self.step {
            Blinker03Step::StartTimer => store(ARM_TIMER_CTL, TIMER_CONTROL),
            Blinker03Step::ReadFsel2 => load(GPFSEL2),
            Blinker03Step::WriteFsel2 => store(GPFSEL2, fsel2_outputs_20_to_22(self.latched)),
            Blinker03Step::ReadCounter => load(ARM_TIMER_CNT),
            Blinker03Step::SetPin20 => store(GPSET0, GPIO20),
            Blinker03Step::ClearPin21 => store(GPCLR0, GPIO21),
            Blinker03Step::WriteBlue => store(set_clear_for(self.blue_set), GPIO22),
            Blinker03Step::WaitLit => load(ARM_TIMER_CNT),
            Blinker03Step::ClearPin20 => store(GPCLR0, GPIO20),
            Blinker03Step::SetPin21 => store(GPSET0, GPIO21),
            Blinker03Step::WaitDark => load(ARM_TIMER_CNT),
        }
    }

    open spec fn advance_spec(&self, input: u32) -> Self {
        let elapsed = ticks_since(input, self.timer_state) >= TIMEOUT;
        match self.step {
            Blinker03Step::StartTimer => Blinker03 { step: Blinker03Step::ReadFsel2, ..*self },
            Blinker03Step::ReadFsel2 => Blinker03 {
                step: Blinker03Step::WriteFsel2,
                latched: input,
                ..*self
            },
            Blinker03Step::WriteFsel2 => Blinker03 { step: Blinker03Step::ReadCounter, ..*self },
            Blinker03Step::ReadCounter => Blinker03 {
                step: Blinker03Step::SetPin20,
                timer_state: input,
                ..*self
            },
            Blinker03Step::SetPin20 => Blinker03 { step: Blinker03Step::ClearPin21, ..*self },
            Blinker03Step::ClearPin21 => Blinker03 { step: Blinker03Step::WriteBlue, ..*self },
            Blinker03Step::WriteBlue => Blinker03 {
                step: Blinker03Step::WaitLit,
                blue_set: !self.blue_set,
                ..*self
            },
            Blinker03Step::WaitLit => if elapsed {
                Blinker03 {
                    step: Blinker03Step::ClearPin20,
                    timer_state: next_deadline(self.timer_state),
                    ..*self
                }
            } else {
                *self
            },
            Blinker03Step::ClearPin20 => Blinker03 { step: Blinker03Step::SetPin21, ..*self },
            Blinker03Step::SetPin21 => Blinker03 { step: Blinker03Step::WaitDark, ..*self },
            Blinker03Step::WaitDark => if elapsed {
                Blinker03 {
                    step: Blinker03Step::SetPin20,
                    timer_state: next_deadline(self.timer_state),
                    ..*self
                }
            } else {
                *self
            },
        }
    }

    fn command(&self) -> (c: Command) {
        match self.step {
            Blinker03Step::StartTimer => write_to(ARM_TIMER_CTL, TIMER_CONTROL),
            Blinker03Step::ReadFsel2 => read_from(GPFSEL2),
            Blinker03Step::WriteFsel2 => write_to(GPFSEL2, outputs_20_to_22(self.latched)),
            Blinker03Step::ReadCounter => read_from(ARM_TIMER_CNT),
            Blinker03Step::SetPin20 => write_to(GPSET0, GPIO20),
            Blinker03Step::ClearPin21 => write_to(GPCLR0, GPIO21),
            Blinker03Step::WriteBlue => write_to(set_clear_register(self.blue_set), GPIO22),
            Blinker03Step::WaitLit => read_from(ARM_TIMER_CNT),
            Blinker03Step::ClearPin20 => write_to(GPCLR0, GPIO20),
            Blinker03Step::SetPin21 => write_to(GPSET0, GPIO21),
            Blinker03Step::WaitDark => read_from(ARM_TIMER_CNT),
        }
    }

    fn advance(&mut self, input: u32) {
        match self.step {
            Blinker03Step::StartTimer => self.step = Blinker03Step::ReadFsel2,
            Blinker03Step::ReadFsel2 => {
                self.latched = input;
                self.step = Blinker03Step::WriteFsel2;
            },
            Blinker03Step::WriteFsel2 => self.step = Blinker03Step::ReadCounter,
            Blinker03Step::ReadCounter => {
                self.timer_state = input;
                self.step = Blinker03Step::SetPin20;
            },
            Blinker03Step::SetPin20 => self.step = Blinker03Step::ClearPin21,
            Blinker03Step::ClearPin21 => self.step = Blinker03Step::WriteBlue,
            Blinker03Step::WriteBlue => {
                self.blue_set = !self.blue_set;
                self.step = Blinker03Step::WaitLit;
            },
            Blinker03Step::WaitLit => {
                if let Some(next) = poll_timeout(self.timer_state, TIMEOUT, input) {
                    self.timer_state = next;
                    self.step = Blinker03Step::ClearPin20;
                }
            },
            Blinker03Step::ClearPin20 => self.step = Blinker03Step::SetPin21,
            Blinker03Step::SetPin21 => self.step = Blinker03Step::WaitDark,
            Blinker03Step::WaitDark => {
                if let Some(next) = poll_timeout(self.timer_state, TIMEOUT, input) {
                    self.timer_state = next;
                    self.step = Blinker03Step::SetPin20;
                }
            },
        }
    }
}

/// Loop: when each wait sees `TIMEOUT` ticks passed at its first reading, one
/// period lights pin 20 with pin 21 dark, switches pin 22, swaps pins 20 and
/// 21, and comes back with pin 22 to be switched the other way and the
/// deadline moved on by two timeouts.
pub proof fn lemma_blinker03_period(m: Blinker03, inputs: Seq<u32>)
    requires
        m.step == Blinker03Step::SetPin20,
        inputs.len() == 7,
        ticks_since(inputs[3], m.timer_state) >= TIMEOUT,
        ticks_since(inputs[6], next_deadline(m.timer_state)) >= TIMEOUT,
    ensures
        trace(m, inputs) == seq![
            store(GPSET0, GPIO20),
            store(GPCLR0, GPIO21),
            store(set_clear_for(m.blue_set), GPIO22),
            load(ARM_TIMER_CNT),
            store(GPCLR0, GPIO20),
            store(GPSET0, GPIO21),
            load(ARM_TIMER_CNT),
        ],
        after(m, inputs).step == Blinker03Step::SetPin20,
        after(m, inputs).blue_set == !m.blue_set,
        after(m, inputs).timer_state == next_deadline(next_deadline(m.timer_state)),
{
    reveal_with_fuel(trace, 8);
    reveal_with_fuel(after, 8);
    assert(inputs.drop_first().drop_first().drop_first().drop_first().drop_first().drop_first().drop_first()
        =~= Seq::<u32>::empty());
}

/// A wait reads the counter again, and stays, for as long as fewer than
/// `TIMEOUT` ticks have passed since the deadline it waits from.
pub proof fn lemma_blinker03_waits(m: Blinker03, input: u32)
    requires
        m.step == Blinker03Step::WaitLit || m.step == Blinker03Step::WaitDark,
        ticks_since(input, m.timer_state) < TIMEOUT,
    ensures
        m.command_spec() == load(ARM_TIMER_CNT),
        m.advance_spec(input) == m,
{
}

/// Every register the program touches lies in the peripheral address space.
/// The program never asks the pin driver library for anything: it drives
/// its pins through the GPIO registers.
pub proof fn lemma_blinker03_peripheral_only(m: Blinker03)
    ensures
        m.command_spec().in_peripheral_space(),
        !m.command_spec().drives_pins(),
{
    crate::register::lemma_peripheral_addresses();
}

/// Setup, whatever the reads: the program starts the free-running counter
/// with pre-divider 0xF9, reads GPFSEL2 and writes it back with pins 20 to 22
/// (slots 0 to 2) made outputs and every other pin kept, then reads the
/// counter and waits from that reading, pin 22 to be lit first.
pub proof fn lemma_blinker03_setup(inputs: Seq<u32>)
    requires
        inputs.len() == 4,
    ensures
        trace(
            Blinker03 { step: Blinker03Step::StartTimer, latched: 0, timer_state: 0, blue_set: true },
            inputs,
        ) == seq![
            store(0x3F00_B408, 0x00F9_0200),
            load(0x3F20_0008),
            store(0x3F20_0008, crate::gpio::with_output(crate::gpio::with_output(crate::gpio::with_output(inputs[1], 0), 1), 2)),
            load(0x3F00_B420),
        ],
        crate::gpio::first_slots_made_outputs(inputs[1], crate::gpio::with_output(crate::gpio::with_output(crate::gpio::with_output(inputs[1], 0), 1), 2), 3),
        after(
            Blinker03 { step: Blinker03Step::StartTimer, latched: 0, timer_state: 0, blue_set: true },
            inputs,
        ).step == Blinker03Step::SetPin20,
        after(
            Blinker03 { step: Blinker03Step::StartTimer, latched: 0, timer_state: 0, blue_set: true },
            inputs,
        ).timer_state == inputs[3],
        after(
            Blinker03 { step: Blinker03Step::StartTimer, latched: 0, timer_state: 0, blue_set: true },
            inputs,
        ).blue_set,
{
    crate::gpio::lemma_outputs_20_to_22(inputs[1]);
    reveal_with_fuel(trace, 5);
    reveal_with_fuel(after, 5);
    assert(inputs.drop_first().drop_first().drop_first().drop_first() =~= Seq::<u32>::empty());
}

} // verus!
