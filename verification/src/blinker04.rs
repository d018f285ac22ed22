//! Fourth blinker: pins 20 and 21 blink in turn and pin 22 at half their rate,
//! timed by the ARM timer's interrupt flag, polled.

use vstd::prelude::*;
use crate::command::{Command, Program, store, load, write_to, read_from, trace, after};
use crate::gpio::{
    GPFSEL2, GPSET0, GPCLR0, GPIO20, GPIO21, GPIO22, outputs_20_to_22, fsel2_outputs_20_to_22,
    set_clear_register, set_clear_for,
};
use crate::timer::{
    ARM_TIMER_LOD, ARM_TIMER_CTL, ARM_TIMER_RIS, ARM_TIMER_CLI, ARM_TIMER_RLD, ARM_TIMER_DIV,
    TIMER_PREDIVIDER, timer_irq_raised,
};

verus! {

/// Timer ticks (about a microsecond each) between two changes of the LEDs.
pub const TIMEOUT: u32 = 500_000;

/// ARM timer control value written while the timer is configured (timer off).
pub const TIMER_CONTROL_STOPPED: u32 = 0x003E_0000;

/// ARM timer control value that runs the 32-bit timer with its interrupt enabled.
pub const TIMER_CONTROL_RUNNING: u32 = 0x003E_0082;

/// Where the fourth blinker stands.
#[derive(PartialEq, Eq, Structural, Clone, Copy, Debug)]
pub enum Blinker04Step {
    StopTimer,
    WriteLoad,
    WriteReload,
    WriteDivider,
    ClearIrq,
    StartTimer,
    ReadFsel2,
    WriteFsel2,
    WriteBlue,
    SetPin20,
    ClearPin21,
    WaitLit,
    AckLit,
    ClearPin20,
    SetPin21,
    WaitDark,
    AckDark,
}

/// The fourth blinker: configure the ARM timer to count down from `TIMEOUT`,
/// make pins 20 to 22 outputs, then forever switch pin 22, light pin 20 with
/// pin 21 dark, wait for the timer interrupt flag and clear it, swap pins 20
/// and 21, and wait again.
#[derive(PartialEq, Eq, Structural, Clone, Copy, Debug)]
pub struct Blinker04 {
    pub step: Blinker04Step,
    /// The last value read from a register.
    pub latched: u32,
    /// Whether pin 22 is lit (through GPSET0) rather than darkened (through
    /// GPCLR0) when it is next switched.
    pub blue_set: bool,
}

impl Blinker04 {
    /// The program at its entry point.
    pub fn new() -> (m: Self)
        ensures
            m.step == Blinker04Step::StopTimer,
            m.latched == 0,
            m.blue_set,
    {
        Blinker04 { step: Blinker04Step::StopTimer, latched: 0, blue_set: true }
    }
}

impl Program for Blinker04 {
    open spec fn command_spec(&self) -> Command {
        match self.step {
            Blinker04Step::StopTimer => store(ARM_TIMER_CTL, TIMER_CONTROL_STOPPED),
            Blinker04Step::WriteLoad => store(ARM_TIMER_LOD, (TIMEOUT - 1) as u32),
            Blinker04Step::WriteReload => store(ARM_TIMER_RLD, (TIMEOUT - 1) as u32),
            Blinker04Step::WriteDivider => store(ARM_TIMER_DIV, TIMER_PREDIVIDER),
            Blinker04Step::ClearIrq => store(ARM_TIMER_CLI, 0),
            Blinker04Step::StartTimer => store(ARM_TIMER_CTL, TIMER_CONTROL_RUNNING),
            Blinker04Step::ReadFsel2 => load(GPFSEL2),
            Blinker04Step::WriteFsel2 => store(GPFSEL2, fsel2_outputs_20_to_22(self.latched)),
            Blinker04Step::WriteBlue => store(set_clear_for(self.blue_set), GPIO22),
            Blinker04Step::SetPin20 => store(GPSET0, GPIO20),
            Blinker04Step::ClearPin21 => store(GPCLR0, GPIO21),
            Blinker04Step::WaitLit => load(ARM_TIMER_RIS),
            Blinker04Step::AckLit => store(ARM_TIMER_CLI, 0),
            Blinker04Step::ClearPin20 => store(GPCLR0, GPIO20),
            Blinker04Step::SetPin21 => store(GPSET0, GPIO21),
            Blinker04Step::WaitDark => load(ARM_TIMER_RIS),
            Blinker04Step::AckDark => store(ARM_TIMER_CLI, 0),
        }
    }

    open spec fn advance_spec(&self, input: u32) -> Self {
        match self.step {
            Blinker04Step::StopTimer => Blinker04 { step: Blinker04Step::WriteLoad, ..*self },
            Blinker04Step::WriteLoad => Blinker04 { step: Blinker04Step::WriteReload, ..*self },
            Blinker04Step::WriteReload => Blinker04 { step: Blinker04Step::WriteDivider, ..*self },
            Blinker04Step::WriteDivider => Blinker04 { step: Blinker04Step::ClearIrq, ..*self },
            Blinker04Step::ClearIrq => Blinker04 { step: Blinker04Step::StartTimer, ..*self },
            Blinker04Step::StartTimer => Blinker04 { step: Blinker04Step::ReadFsel2, ..*self },
            Blinker04Step::ReadFsel2 => Blinker04 {
                step: Blinker04Step::WriteFsel2,
                latched: input,
                ..*self
            },
            Blinker04Step::WriteFsel2 => Blinker04 { step: Blinker04Step::WriteBlue, ..*self },
            Blinker04Step::WriteBlue => Blinker04 {
                step: Blinker04Step::SetPin20,
                blue_set: !self.blue_set,
                ..*self
            },
            Blinker04Step::SetPin20 => Blinker04 { step: Blinker04Step::ClearPin21, ..*self },
            Blinker04Step::ClearPin21 => Blinker04 { step: Blinker04Step::WaitLit, ..*self },
            Blinker04Step::WaitLit => if input > 0 {
                Blinker04 { step: Blinker04Step::AckLit, ..*self }
            } else {
                *self
            },
            Blinker04Step::AckLit => Blinker04 { step: Blinker04Step::ClearPin20, ..*self },
            Blinker04Step::ClearPin20 => Blinker04 { step: Blinker04Step::SetPin21, ..*self },
            Blinker04Step::SetPin21 => Blinker04 { step: Blinker04Step::WaitDark, ..*self },
            Blinker04Step::WaitDark => if input > 0 {
                Blinker04 { step: Blinker04Step::AckDark, ..*self }
            } else {
                *self
            },
            Blinker04Step::AckDark => Blinker04 { step: Blinker04Step::WriteBlue, ..*self },
        }
    }

    fn command(&self) -> (c: Command) {
        match self.step {
            Blinker04Step::StopTimer => write_to(ARM_TIMER_CTL, TIMER_CONTROL_STOPPED),
            Blinker04Step::WriteLoad => write_to(ARM_TIMER_LOD, TIMEOUT - 1),
            Blinker04Step::WriteReload => write_to(ARM_TIMER_RLD, TIMEOUT - 1),
            Blinker04Step::WriteDivider => write_to(ARM_TIMER_DIV, TIMER_PREDIVIDER),
            Blinker04Step::ClearIrq => write_to(ARM_TIMER_CLI, 0),
            Blinker04Step::StartTimer => write_to(ARM_TIMER_CTL, TIMER_CONTROL_RUNNING),
            Blinker04Step::ReadFsel2 => read_from(GPFSEL2),
            Blinker04Step::WriteFsel2 => write_to(GPFSEL2, outputs_20_to_22(self.latched)),
            Blinker04Step::WriteBlue => write_to(set_clear_register(self.blue_set), GPIO22),
            Blinker04Step::SetPin20 => write_to(GPSET0, GPIO20),
            Blinker04Step::ClearPin21 => write_to(GPCLR0, GPIO21),
            Blinker04Step::WaitLit => read_from(ARM_TIMER_RIS),
            Blinker04Step::AckLit => write_to(ARM_TIMER_CLI, 0),
            Blinker04Step::ClearPin20 => write_to(GPCLR0, GPIO20),
            Blinker04Step::SetPin21 => write_to(GPSET0, GPIO21),
            Blinker04Step::WaitDark => read_from(ARM_TIMER_RIS),
            Blinker04Step::AckDark => write_to(ARM_TIMER_CLI, 0),
        }
    }

    fn advance(&mut self, input: u32) {
        match self.step {
            Blinker04Step::StopTimer => self.step = Blinker04Step::WriteLoad,
            Blinker04Step::WriteLoad => self.step = Blinker04Step::WriteReload,
            Blinker04Step::WriteReload => self.step = Blinker04Step::WriteDivider,
            Blinker04Step::WriteDivider => self.step = Blinker04Step::ClearIrq,
            Blinker04Step::ClearIrq => self.step = Blinker04Step::StartTimer,
            Blinker04Step::StartTimer => self.step = Blinker04Step::ReadFsel2,
            Blinker04Step::ReadFsel2 => {
                self.latched = input;
                self.step = Blinker04Step::WriteFsel2;
            },
            Blinker04Step::WriteFsel2 => self.step = Blinker04Step::WriteBlue,
            Blinker04Step::WriteBlue => {
                self.blue_set = !self.blue_set;
                self.step = Blinker04Step::SetPin20;
            },
            Blinker04Step::SetPin20 => self.step = Blinker04Step::ClearPin21,
            Blinker04Step::ClearPin21 => self.step = Blinker04Step::WaitLit,
            Blinker04Step::WaitLit => {
                if timer_irq_raised(input) {
                    self.step = Blinker04Step::AckLit;
                }
            },
            Blinker04Step::AckLit => self.step = Blinker04Step::ClearPin20,
            Blinker04Step::ClearPin20 => self.step = Blinker04Step::SetPin21,
            Blinker04Step::SetPin21 => self.step = Blinker04Step::WaitDark,
            Blinker04Step::WaitDark => {
                if timer_irq_raised(input) {
                    self.step = Blinker04Step::AckDark;
                }
            },
            Blinker04Step::AckDark => self.step = Blinker04Step::WriteBlue,
        }
    }
}

/// Loop: when each wait finds the interrupt flag raised at its first reading,
/// one period switches pin 22, lights pin 20 with pin 21 dark, clears the
/// flag, swaps pins 20 and 21, clears the flag again, and comes back with
/// pin 22 to be switched the other way.
pub proof fn lemma_blinker04_period(m: Blinker04, inputs: Seq<u32>)
    requires
        m.step == Blinker04Step::WriteBlue,
        inputs.len() == 9,
        inputs[3] > 0,
        inputs[7] > 0,
    ensures
        trace(m, inputs) == seq![
            store(set_clear_for(m.blue_set), GPIO22),
            store(GPSET0, GPIO20),
            store(GPCLR0, GPIO21),
            load(ARM_TIMER_RIS),
            store(ARM_TIMER_CLI, 0),
            store(GPCLR0, GPIO20),
            store(GPSET0, GPIO21),
            load(ARM_TIMER_RIS),
            store(ARM_TIMER_CLI, 0),
        ],
        after(m, inputs).step == Blinker04Step::WriteBlue,
        after(m, inputs).blue_set == !m.blue_set,
{
    reveal_with_fuel(trace, 10);
    reveal_with_fuel(after, 10);
    assert(inputs.drop_first().drop_first().drop_first().drop_first().drop_first().drop_first().drop_first().drop_first().drop_first()
        =~= Seq::<u32>::empty());
}

/// A wait reads the raw interrupt register again, and stays, for as long as
/// it reads zero.
pub proof fn lemma_blinker04_waits(m: Blinker04)
    requires
        m.step == Blinker04Step::WaitLit || m.step == Blinker04Step::WaitDark,
    ensures
        m.command_spec() == load(ARM_TIMER_RIS),
        m.advance_spec(0) == m,
{
}

/// Every register the program touches lies in the peripheral address space.
/// The program never asks the pin driver library for anything: it drives
/// its pins through the GPIO registers.
pub proof fn lemma_blinker04_peripheral_only(m: Blinker04)
    ensures
        m.command_spec().in_peripheral_space(),
        !m.command_spec().drives_pins(),
{
    crate::register::lemma_peripheral_addresses();
}

/// Setup, whatever the reads: the program stops the ARM timer, loads and
/// reloads it with 499_999, sets the pre-divider 0xF9, clears its interrupt,
/// runs it with its interrupt enabled, and writes GPFSEL2 back with pins 20
/// to 22 (slots 0 to 2) made outputs and every other pin kept; then it enters
/// its loop with pin 22 to be lit first.
pub proof fn lemma_blinker04_setup(inputs: Seq<u32>)
    requires
        inputs.len() == 8,
    ensures
        trace(Blinker04 { step: Blinker04Step::StopTimer, latched: 0, blue_set: true }, inputs)
            == seq![
            store(0x3F00_B408, 0x003E_0000),
            store(0x3F00_B400, 499_999),
            store(0x3F00_B418, 499_999),
            store(0x3F00_B41C, 0xF9),
            store(0x3F00_B40C, 0),
            store(0x3F00_B408, 0x003E_0082),
            load(0x3F20_0008),
            store(0x3F20_0008, crate::gpio::with_output(crate::gpio::with_output(crate::gpio::with_output(inputs[6], 0), 1), 2)),
        ],
        crate::gpio::first_slots_made_outputs(inputs[6], crate::gpio::with_output(crate::gpio::with_output(crate::gpio::with_output(inputs[6], 0), 1), 2), 3),
        after(Blinker04 { step: Blinker04Step::StopTimer, latched: 0, blue_set: true }, inputs).step
            == Blinker04Step::WriteBlue,
        after(Blinker04 { step: Blinker04Step::StopTimer, latched: 0, blue_set: true }, inputs).blue_set,
{
    crate::gpio::lemma_outputs_20_to_22(inputs[6]);
    reveal_with_fuel(trace, 9);
    reveal_with_fuel(after, 9);
    assert(inputs.drop_first().drop_first().drop_first().drop_first().drop_first().drop_first().drop_first().drop_first() =~= Seq::<u32>::empty());
}

} // verus!
