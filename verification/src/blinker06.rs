//! Sixth blinker: the ARM timer interrupt blinks pins 20 and 21 while the main
//! program arms the watchdog and lights pin 22 once the watchdog runs low.
//! Every register access goes through a check that the address lies in the
//! peripheral space.

use vstd::prelude::*;
use crate::command::{Command, Program, store, load, write_to, read_from, trace, after};
use crate::gpio::{
    GPFSEL2, GPSET0, GPCLR0, GPIO20, GPIO21, GPIO22, outputs_20_to_22, fsel2_outputs_20_to_22,
};
use crate::interrupt::{IrqStep, timer_irq_steps, timer_irq_response};
use crate::timer::{
    ARM_TIMER_LOD, ARM_TIMER_CTL, ARM_TIMER_CLI, ARM_TIMER_RLD, ARM_TIMER_DIV, IRQ_BASIC_ENABLE,
    TIMER_PREDIVIDER,
};
use crate::watchdog::{
    PM_WDOG, start, remaining_time, wdog_start_value, time_left, start_read, start_stores,
    start_sequence, reset_control_read,
};

verus! {

/// Timer period, in ticks, between two interrupts.
pub const SHORT_TIMEOUT: u32 = 500_000;

/// ARM timer control value: 32-bit timer running, interrupt enabled, with the
/// pre-scaler set.
pub const TIMER_CONTROL: u32 = 0x003E_00A2;

/// Watchdog timeout, in ticks, that the program arms.
pub const WATCHDOG_TIMEOUT: u32 = 0x000F_FFFF;

/// Pin 22 is lit once the watchdog has less time left than this.
pub const LOW_WATCHDOG_TIME: u32 = 0x67697;

/// Where the sixth blinker stands.
#[derive(PartialEq, Eq, Structural, Clone, Copy, Debug)]
pub enum Blinker06Step {
    LoadShort,
    ReloadShort,
    WriteDivider,
    ClearIrq,
    StartTimer,
    EnableTimerIrq,
    ReadFsel2,
    WriteFsel2,
    EnableIrq,
    ReadResetControl,
    WriteWatchdog,
    WriteResetControl,
    PollWatchdog,
    LightPin22,
    Halt,
}

/// The sixth blinker's main program: start the timer and its interrupt, make
/// pins 20 to 22 outputs, unmask interrupts, arm the watchdog, wait until it
/// runs low, light pin 22, and idle.
#[derive(PartialEq, Eq, Structural, Clone, Copy, Debug)]
pub struct Blinker06 {
    pub step: Blinker06Step,
    /// The last value read from a register.
    pub latched: u32,
}

impl Blinker06 {
    /// The program at its entry point.
    pub fn new() -> (m: Self)
        ensures
            m.step == Blinker06Step::LoadShort,
            m.latched == 0,
    {
        Blinker06 { step: Blinker06Step::LoadShort, latched: 0 }
    }
}

impl Program for Blinker06 {
    open spec fn command_spec(&self) -> Command {
        match self.step {
            Blinker06Step::LoadShort => store(ARM_TIMER_LOD, (SHORT_TIMEOUT - 1) as u32),
            Blinker06Step::ReloadShort => store(ARM_TIMER_RLD, (SHORT_TIMEOUT - 1) as u32),
            Blinker06Step::WriteDivider => store(ARM_TIMER_DIV, TIMER_PREDIVIDER),
            Blinker06Step::ClearIrq => store(ARM_TIMER_CLI, 0),
            Blinker06Step::StartTimer => store(ARM_TIMER_CTL, TIMER_CONTROL),
            Blinker06Step::EnableTimerIrq => store(IRQ_BASIC_ENABLE, 1),
            Blinker06Step::ReadFsel2 => load(GPFSEL2),
            Blinker06Step::WriteFsel2 => store(GPFSEL2, fsel2_outputs_20_to_22(self.latched)),
            Blinker06Step::EnableIrq => Command::EnableIrq,
            Blinker06Step::ReadResetControl => start_read(),
            Blinker06Step::WriteWatchdog => start_stores(WATCHDOG_TIMEOUT, self.latched)[0],
            Blinker06Step::WriteResetControl => start_stores(WATCHDOG_TIMEOUT, self.latched)[1],
            Blinker06Step::PollWatchdog => load(PM_WDOG),
            Blinker06Step::LightPin22 => store(GPSET0, GPIO22),
            Blinker06Step::Halt => Command::Halt,
        }
    }

    open spec fn advance_spec(&self, input: u32) -> Self {
        match self.step {
            Blinker06Step::LoadShort => Blinker06 { step: Blinker06Step::ReloadShort, ..*self },
            Blinker06Step::ReloadShort => Blinker06 { step: Blinker06Step::WriteDivider, ..*self },
            Blinker06Step::WriteDivider => Blinker06 { step: Blinker06Step::ClearIrq, ..*self },
            Blinker06Step::ClearIrq => Blinker06 { step: Blinker06Step::StartTimer, ..*self },
            Blinker06Step::StartTimer => Blinker06 { step: Blinker06Step::EnableTimerIrq, ..*self },
            Blinker06Step::EnableTimerIrq => Blinker06 { step: Blinker06Step::ReadFsel2, ..*self },
            Blinker06Step::ReadFsel2 => Blinker06 { step: Blinker06Step::WriteFsel2, latched: input },
            Blinker06Step::WriteFsel2 => Blinker06 { step: Blinker06Step::EnableIrq, ..*self },
            Blinker06Step::EnableIrq => Blinker06 { step: Blinker06Step::ReadResetControl, ..*self },
            Blinker06Step::ReadResetControl => Blinker06 {
                step: Blinker06Step::WriteWatchdog,
                latched: input,
            },
            Blinker06Step::WriteWatchdog => Blinker06 {
                step: Blinker06Step::WriteResetControl,
                ..*self
            },
            Blinker06Step::WriteResetControl => Blinker06 {
                step: Blinker06Step::PollWatchdog,
                ..*self
            },
            Blinker06Step::PollWatchdog => if time_left(input) < LOW_WATCHDOG_TIME {
                Blinker06 { step: Blinker06Step::LightPin22, ..*self }
            } else {
                *self
            },
            Blinker06Step::LightPin22 => Blinker06 { step: Blinker06Step::Halt, ..*self },
            Blinker06Step::Halt => *self,
        }
    }

    fn command(&self) -> (c: Command) {
        match self.step {
            Blinker06Step::LoadShort => write_to(ARM_TIMER_LOD, SHORT_TIMEOUT - 1),
            Blinker06Step::ReloadShort => write_to(ARM_TIMER_RLD, SHORT_TIMEOUT - 1),
            Blinker06Step::WriteDivider => write_to(ARM_TIMER_DIV, TIMER_PREDIVIDER),
            Blinker06Step::ClearIrq => write_to(ARM_TIMER_CLI, 0),
            Blinker06Step::StartTimer => write_to(ARM_TIMER_CTL, TIMER_CONTROL),
            Blinker06Step::EnableTimerIrq => write_to(IRQ_BASIC_ENABLE, 1),
            Blinker06Step::ReadFsel2 => read_from(GPFSEL2),
            Blinker06Step::WriteFsel2 => write_to(GPFSEL2, outputs_20_to_22(self.latched)),
            Blinker06Step::EnableIrq => Command::EnableIrq,
            Blinker06Step::ReadResetControl => reset_control_read(),
            Blinker06Step::WriteWatchdog => start(WATCHDOG_TIMEOUT, self.latched)[0],
            Blinker06Step::WriteResetControl => start(WATCHDOG_TIMEOUT, self.latched)[1],
            Blinker06Step::PollWatchdog => read_from(PM_WDOG),
            Blinker06Step::LightPin22 => write_to(GPSET0, GPIO22),
            Blinker06Step::Halt => Command::Halt,
        }
    }

    fn advance(&mut self, input: u32) {
        match self.step {
            Blinker06Step::LoadShort => self.step = Blinker06Step::ReloadShort,
            Blinker06Step::ReloadShort => self.step = Blinker06Step::WriteDivider,
            Blinker06Step::WriteDivider => self.step = Blinker06Step::ClearIrq,
            Blinker06Step::ClearIrq => self.step = Blinker06Step::StartTimer,
            Blinker06Step::StartTimer => self.step = Blinker06Step::EnableTimerIrq,
            Blinker06Step::EnableTimerIrq => self.step = Blinker06Step::ReadFsel2,
            Blinker06Step::ReadFsel2 => {
                self.latched = input;
                self.step = Blinker06Step::WriteFsel2;
            },
            Blinker06Step::WriteFsel2 => self.step = Blinker06Step::EnableIrq,
            Blinker06Step::EnableIrq => self.step = Blinker06Step::ReadResetControl,
            Blinker06Step::ReadResetControl => {
                self.latched = input;
                self.step = Blinker06Step::WriteWatchdog;
            },
            Blinker06Step::WriteWatchdog => self.step = Blinker06Step::WriteResetControl,
            Blinker06Step::WriteResetControl => self.step = Blinker06Step::PollWatchdog,
            Blinker06Step::PollWatchdog => {
                if remaining_time(input) < LOW_WATCHDOG_TIME {
                    self.step = Blinker06Step::LightPin22;
                }
            },
            Blinker06Step::LightPin22 => self.step = Blinker06Step::Halt,
            Blinker06Step::Halt => {},
        }
    }
}

/// Watchdog: the program starts the watchdog with its timeout as the watchdog
/// module says, reading PM_RSTC once, then storing PM_WDOG and then PM_RSTC
/// with a full reset built from the value read; then it polls PM_WDOG.
pub proof fn lemma_blinker06_arms_watchdog(m: Blinker06, inputs: Seq<u32>)
    requires
        m.step == Blinker06Step::ReadResetControl,
        inputs.len() == 3,
    ensures
        trace(m, inputs) == start_sequence(WATCHDOG_TIMEOUT, inputs[0]),
        after(m, inputs).step == Blinker06Step::PollWatchdog,
{
    reveal_with_fuel(trace, 4);
    reveal_with_fuel(after, 4);
    assert(inputs.drop_first().drop_first().drop_first() =~= Seq::<u32>::empty());
}

/// Pin 22 is lit on the first reading of the watchdog that shows less than
/// `LOW_WATCHDOG_TIME` left, and not before; then the program idles for good.
pub proof fn lemma_blinker06_lights_when_low(m: Blinker06, input: u32)
    requires
        m.step == Blinker06Step::PollWatchdog,
    ensures
        m.command_spec() == load(PM_WDOG),
        time_left(input) < LOW_WATCHDOG_TIME ==> m.advance_spec(input).command_spec() == store(
            GPSET0,
            GPIO22,
        ) && m.advance_spec(input).advance_spec(input).step == Blinker06Step::Halt,
        time_left(input) >= LOW_WATCHDOG_TIME ==> m.advance_spec(input) == m,
{
}

/// Freshly armed, the watchdog shows its whole timeout left, which is not
/// low: pin 22 stays dark on a reading taken before the watchdog counts down.
pub proof fn lemma_blinker06_not_low_when_armed()
    ensures
        time_left(wdog_start_value(WATCHDOG_TIMEOUT)) == WATCHDOG_TIMEOUT,
        WATCHDOG_TIMEOUT >= LOW_WATCHDOG_TIME,
{
    crate::watchdog::lemma_remaining_time_after_start(WATCHDOG_TIMEOUT);
    assert(0x000F_FFFFu32 & 0x000F_FFFFu32 == 0x000F_FFFFu32) by (bit_vector);
}

/// Every register the program touches passes the peripheral-space check, so
/// the check never stops the program.
/// The program never asks the pin driver library for anything: it drives
/// its pins through the GPIO registers.
pub proof fn lemma_blinker06_peripheral_only(m: Blinker06)
    ensures
        m.command_spec().in_peripheral_space(),
        !m.command_spec().drives_pins(),
{
    crate::register::lemma_peripheral_addresses();
}

/// The LED commands of the interrupt handler for the interrupt count
/// `counter`: pin 20 lit and pin 21 dark when bit 0 of the count is clear,
/// the opposite when it is set.
pub open spec fn irq_leds(counter: u32) -> Seq<Command> {
    if counter & 1 == 0 {
        seq![store(GPSET0, GPIO20), store(GPCLR0, GPIO21)]
    } else {
        seq![store(GPCLR0, GPIO20), store(GPSET0, GPIO21)]
    }
}

/// What the timer interrupt handler does, in order, for the interrupt count
/// `state_counter`: the LED commands, saving the next count, acknowledging the timer.
pub fn irq_response(state_counter: u32) -> (r: Vec<IrqStep>)
    ensures
        r@ == timer_irq_steps(irq_leds(state_counter), state_counter),
{
    let mut leds: Vec<Command> = Vec::new();
    if state_counter & 1 == 0 {
        leds.push(write_to(GPSET0, GPIO20));
        leds.push(write_to(GPCLR0, GPIO21));
    } else {
        leds.push(write_to(GPCLR0, GPIO20));
        leds.push(write_to(GPSET0, GPIO21));
    }
    assert(leds@ =~= irq_leds(state_counter));
    timer_irq_response(leds, state_counter)
}

/// The handler drives pins 20 and 21 as the fifth blinker's handler does,
/// for every interrupt count.
pub proof fn lemma_blinker06_irq_matches_blinker05(counter: u32)
    ensures
        irq_leds(counter) == crate::blinker05::irq_leds(counter).take(2),
{
    assert((counter & 1 == 0) == (counter % 2 == 0)) by (bit_vector);
    assert(irq_leds(counter) =~= crate::blinker05::irq_leds(counter).take(2));
}

/// Setup, whatever the reads: the program loads and reloads the timer with
/// 499_999, sets the pre-divider 0xF9, clears the timer interrupt, runs the
/// timer with its interrupt enabled (control 0x003E_00A2: enable bit 0x80 and
/// interrupt-enable bit 0x20 set), unmasks the timer interrupt at the
/// controller, writes GPFSEL2 back with pins 20 to 22 (slots 0 to 2) made
/// outputs and every other pin kept, and unmasks interrupts on the CPU; then
/// it goes on to arm the watchdog.
pub proof fn lemma_blinker06_setup(inputs: Seq<u32>)
    requires
        inputs.len() == 9,
    ensures
        trace(Blinker06 { step: Blinker06Step::LoadShort, latched: 0 }, inputs) == seq![
            store(0x3F00_B400, 499_999),
            store(0x3F00_B418, 499_999),
            store(0x3F00_B41C, 0xF9),
            store(0x3F00_B40C, 0),
            store(0x3F00_B408, 0x003E_00A2),
            store(0x3F00_B218, 1),
            load(0x3F20_0008),
            store(0x3F20_0008, crate::gpio::with_output(crate::gpio::with_output(crate::gpio::with_output(inputs[6], 0), 1), 2)),
            Command::EnableIrq,
        ],
        0x003E_00A2u32 & 0xA0u32 == 0xA0u32,
        crate::gpio::first_slots_made_outputs(inputs[6], crate::gpio::with_output(crate::gpio::with_output(crate::gpio::with_output(inputs[6], 0), 1), 2), 3),
        after(Blinker06 { step: Blinker06Step::LoadShort, latched: 0 }, inputs).step
            == Blinker06Step::ReadResetControl,
{
    crate::gpio::lemma_outputs_20_to_22(inputs[6]);
    assert(0x003E_00A2u32 & 0xA0u32 == 0xA0u32) by (bit_vector);
    reveal_with_fuel(trace, 10);
    reveal_with_fuel(after, 10);
    assert(inputs.drop_first().drop_first().drop_first().drop_first().drop_first().drop_first().drop_first().drop_first().drop_first() =~= Seq::<u32>::empty());
}

} // verus!
