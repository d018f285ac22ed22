//! The display program: the sixth blinker driven through typed registers and
//! a pin driver library. The ARM timer interrupt blinks pins 20 and 21; the
//! main program arms the watchdog and sets pin 22 once the watchdog runs low.

use vstd::prelude::*;
use crate::command::{Command, Program, store, load, write_to, read_from, trace, after};
use crate::gpio::{pin_store};
use crate::interrupt::{IrqStep, timer_irq_steps, timer_irq_response};
use crate::timer::{
    ARM_TIMER_LOD, ARM_TIMER_CTL, ARM_TIMER_CLI, ARM_TIMER_RLD, ARM_TIMER_DIV, IRQ_BASIC_ENABLE,
    TIMER_PREDIVIDER,
};
use crate::watchdog::{
    PM_WDOG, start, remaining_time, wdog_start_value, time_left, start_read, start_stores,
    start_sequence, reset_control_read,
};

verus! {

/// Timer period, in ticks, between two interrupts.
pub const SHORT_TIMEOUT: u32 = 500_000;

/// ARM timer control value: 32-bit timer running, interrupt enabled, with the
/// pre-scaler set.
pub const TIMER_CONTROL: u32 = 0x003E_00A2;

/// Watchdog timeout, in ticks, that the program arms.
pub const WATCHDOG_TIMEOUT: u32 = 0x000F_FFFF;

/// Pin 22 is set once the watchdog has less time left than this.
pub const LOW_WATCHDOG_TIME: u32 = 0x67697;

/// Where the display program stands.
#[derive(PartialEq, Eq, Structural, Clone, Copy, Debug)]
pub enum DisplayStep {
    LoadShort,
    ReloadShort,
    WriteDivider,
    ClearIrq,
    StartTimer,
    EnableTimerIrq,
    SelectPin20,
    SelectPin21,
    SelectPin22,
    EnableIrq,
    ReadResetControl,
    WriteWatchdog,
    WriteResetControl,
    PollWatchdog,
    SetPin22,
    Halt,
}

/// The display program's main part: start the timer and its interrupt, make
/// pins 20 to 22 outputs, unmask interrupts, arm the watchdog, wait until it
/// runs low, set pin 22, and idle.
#[derive(PartialEq, Eq, Structural, Clone, Copy, Debug)]
pub struct Display {
    pub step: DisplayStep,
    /// The last value read from a register.
    pub latched: u32,
}

impl Display {
    /// The program at its entry point.
    pub fn new() -> (m: Self)
        ensures
            m.step == DisplayStep::LoadShort,
            m.latched == 0,
    {
        Display { step: DisplayStep::LoadShort, latched: 0 }
    }
}

impl Program for Display {
    open spec fn command_spec(&self) -> Command {
        match self.step {
            DisplayStep::LoadShort => store(ARM_TIMER_LOD, (SHORT_TIMEOUT - 1) as u32),
            DisplayStep::ReloadShort => store(ARM_TIMER_RLD, (SHORT_TIMEOUT - 1) as u32),
            DisplayStep::WriteDivider => store(ARM_TIMER_DIV, TIMER_PREDIVIDER),
            DisplayStep::ClearIrq => store(ARM_TIMER_CLI, 0),
            DisplayStep::StartTimer => store(ARM_TIMER_CTL, TIMER_CONTROL),
            DisplayStep::EnableTimerIrq => store(IRQ_BASIC_ENABLE, 1),
            DisplayStep::SelectPin20 => Command::SelectOutput { pin: 20 },
            DisplayStep::SelectPin21 => Command::SelectOutput { pin: 21 },
            DisplayStep::SelectPin22 => Command::SelectOutput { pin: 22 },
            DisplayStep::EnableIrq => Command::EnableIrq,
            DisplayStep::ReadResetControl => start_read(),
            DisplayStep::WriteWatchdog => start_stores(WATCHDOG_TIMEOUT, self.latched)[0],
            DisplayStep::WriteResetControl => start_stores(WATCHDOG_TIMEOUT, self.latched)[1],
            DisplayStep::PollWatchdog => load(PM_WDOG),
            DisplayStep::SetPin22 => Command::SetPin { pin: 22 },
            DisplayStep::Halt => Command::Halt,
        }
    }

    open spec fn advance_spec(&self, input: u32) -> Self {
        match self.step {
            DisplayStep::LoadShort => Display { step: DisplayStep::ReloadShort, ..*self },
            DisplayStep::ReloadShort => Display { step: DisplayStep::WriteDivider, ..*self },
            DisplayStep::WriteDivider => Display { step: DisplayStep::ClearIrq, ..*self },
            DisplayStep::ClearIrq => Display { step: DisplayStep::StartTimer, ..*self },
            DisplayStep::StartTimer => Display { step: DisplayStep::EnableTimerIrq, ..*self },
            DisplayStep::EnableTimerIrq => Display { step: DisplayStep::SelectPin20, ..*self },
            DisplayStep::SelectPin20 => Display { step: DisplayStep::SelectPin21, ..*self },
            DisplayStep::SelectPin21 => Display { step: DisplayStep::SelectPin22, ..*self },
            DisplayStep::SelectPin22 => Display { step: DisplayStep::EnableIrq, ..*self },
            DisplayStep::EnableIrq => Display { step: DisplayStep::ReadResetControl, ..*self },
            DisplayStep::ReadResetControl => Display {
                step: DisplayStep::WriteWatchdog,
                latched: input,
            },
            DisplayStep::WriteWatchdog => Display { step: DisplayStep::WriteResetControl, ..*self },
            DisplayStep::WriteResetControl => Display { step: DisplayStep::PollWatchdog, ..*self },
            DisplayStep::PollWatchdog => if time_left(input) < LOW_WATCHDOG_TIME {
                Display { step: DisplayStep::SetPin22, ..*self }
            } else {
                *self
            },
            DisplayStep::SetPin22 => Display { step: DisplayStep::Halt, ..*self },
            DisplayStep::Halt => *self,
        }
    }

    fn command(&self) -> (c: Command) {
        match self.step {
            DisplayStep::LoadShort => write_to(ARM_TIMER_LOD, SHORT_TIMEOUT - 1),
            DisplayStep::ReloadShort => write_to(ARM_TIMER_RLD, SHORT_TIMEOUT - 1),
            DisplayStep::WriteDivider => write_to(ARM_TIMER_DIV, TIMER_PREDIVIDER),
            DisplayStep::ClearIrq => write_to(ARM_TIMER_CLI, 0),
            DisplayStep::StartTimer => write_to(ARM_TIMER_CTL, TIMER_CONTROL),
            DisplayStep::EnableTimerIrq => write_to(IRQ_BASIC_ENABLE, 1),
            DisplayStep::SelectPin20 => Command::SelectOutput { pin: 20 },
            DisplayStep::SelectPin21 => Command::SelectOutput { pin: 21 },
            DisplayStep::SelectPin22 => Command::SelectOutput { pin: 22 },
            DisplayStep::EnableIrq => Command::EnableIrq,
            DisplayStep::ReadResetControl => reset_control_read(),
            DisplayStep::WriteWatchdog => start(WATCHDOG_TIMEOUT, self.latched)[0],
            DisplayStep::WriteResetControl => start(WATCHDOG_TIMEOUT, self.latched)[1],
            DisplayStep::PollWatchdog => read_from(PM_WDOG),
            DisplayStep::SetPin22 => Command::SetPin { pin: 22 },
            DisplayStep::Halt => Command::Halt,
        }
    }

    fn advance(&mut self, input: u32) {
        match self.step {
            DisplayStep::LoadShort => self.step = DisplayStep::ReloadShort,
            DisplayStep::ReloadShort => self.step = DisplayStep::WriteDivider,
            DisplayStep::WriteDivider => self.step = DisplayStep::ClearIrq,
            DisplayStep::ClearIrq => self.step = DisplayStep::StartTimer,
            DisplayStep::StartTimer => self.step = DisplayStep::EnableTimerIrq,
            DisplayStep::EnableTimerIrq => self.step = DisplayStep::SelectPin20,
            DisplayStep::SelectPin20 => self.step = DisplayStep::SelectPin21,
            DisplayStep::SelectPin21 => self.step = DisplayStep::SelectPin22,
            DisplayStep::SelectPin22 => self.step = DisplayStep::EnableIrq,
            DisplayStep::EnableIrq => self.step = DisplayStep::ReadResetControl,
            DisplayStep::ReadResetControl => {
                self.latched = input;
                self.step = DisplayStep::WriteWatchdog;
            },
            DisplayStep::WriteWatchdog => self.step = DisplayStep::WriteResetControl,
            DisplayStep::WriteResetControl => self.step = DisplayStep::PollWatchdog,
            DisplayStep::PollWatchdog => {
                if remaining_time(input) < LOW_WATCHDOG_TIME {
                    self.step = DisplayStep::SetPin22;
                }
            },
            DisplayStep::SetPin22 => self.step = DisplayStep::Halt,
            DisplayStep::Halt => {},
        }
    }
}

/// Watchdog: the program starts the watchdog with its timeout as the watchdog
/// module says, reading PM_RSTC once, then storing PM_WDOG and then PM_RSTC
/// with a full reset built from the value read; then it polls PM_WDOG.
pub proof fn lemma_display_arms_watchdog(m: Display, inputs: Seq<u32>)
    requires
        m.step == DisplayStep::ReadResetControl,
        inputs.len() == 3,
    ensures
        trace(m, inputs) == start_sequence(WATCHDOG_TIMEOUT, inputs[0]),
        after(m, inputs).step == DisplayStep::PollWatchdog,
{
    reveal_with_fuel(trace, 4);
    reveal_with_fuel(after, 4);
    assert(inputs.drop_first().drop_first().drop_first() =~= Seq::<u32>::empty());
}

/// Pin 22 is set on the first reading of the watchdog that shows less than
/// `LOW_WATCHDOG_TIME` left, and not before; then the program idles for good.
pub proof fn lemma_display_sets_when_low(m: Display, input: u32)
    requires
        m.step == DisplayStep::PollWatchdog,
    ensures
        m.command_spec() == load(PM_WDOG),
        time_left(input) < LOW_WATCHDOG_TIME ==> m.advance_spec(input).command_spec()
            == (Command::SetPin { pin: 22 }) && m.advance_spec(input).advance_spec(input).step
            == DisplayStep::Halt,
        time_left(input) >= LOW_WATCHDOG_TIME ==> m.advance_spec(input) == m,
{
}

/// Every register the program touches lies in the peripheral address space.
pub proof fn lemma_display_peripheral_only(m: Display)
    ensures
        m.command_spec().in_peripheral_space(),
{
    crate::register::lemma_peripheral_addresses();
}

/// The pin commands of the interrupt handler for the interrupt count
/// `counter`: set pin 20 and clear pin 21 when bit 0 of the count is clear,
/// the opposite when it is set.
pub open spec fn irq_pins(counter: u32) -> Seq<Command> {
    if counter & 1 == 0 {
        seq![Command::SetPin { pin: 20 }, Command::ClearPin { pin: 21 }]
    } else {
        seq![Command::ClearPin { pin: 20 }, Command::SetPin { pin: 21 }]
    }
}

/// What the timer interrupt handler does, in order, for the interrupt count
/// `state_counter`: the LED commands, saving the next count, acknowledging the timer.
pub fn irq_response(state_counter: u32) -> (r: Vec<IrqStep>)
    ensures
        r@ == timer_irq_steps(irq_pins(state_counter), state_counter),
{
    let mut leds: Vec<Command> = Vec::new();
    if state_counter & 1 == 0 {
        leds.push(Command::SetPin { pin: 20 });
        leds.push(Command::ClearPin { pin: 21 });
    } else {
        leds.push(Command::ClearPin { pin: 20 });
        leds.push(Command::SetPin { pin: 21 });
    }
    assert(leds@ =~= irq_pins(state_counter));
    timer_irq_response(leds, state_counter)
}

/// Read through the intended GPIO pin layout (`pin_store`), the handler's pin
/// commands are the register stores of the sixth blinker's handler, for every
/// interrupt count. Whether the pin driver library follows that layout is not
/// checked here.
pub proof fn lemma_display_irq_matches_blinker06(counter: u32)
    ensures
        irq_pins(counter).map_values(|c: Command| pin_store(c)) == crate::blinker06::irq_leds(
            counter,
        ),
{
    crate::gpio::lemma_pin_layout();
    assert(irq_pins(counter).map_values(|c: Command| pin_store(c)) =~= crate::blinker06::irq_leds(
        counter,
    ));
}

/// Setup, whatever the reads: the program loads and reloads the timer with
/// 499_999, sets the pre-divider 0xF9, clears the timer interrupt, runs the
/// timer with its interrupt enabled, unmasks the timer interrupt at the
/// controller (IRQ_BASIC_ENABLE, never IRQ_BASIC_DISABLE), makes pins 20, 21
/// and 22 outputs and unmasks interrupts on the CPU; then it goes on to arm
/// the watchdog.
pub proof fn lemma_display_setup(inputs: Seq<u32>)
    requires
        inputs.len() == 10,
    ensures
        trace(Display { step: DisplayStep::LoadShort, latched: 0 }, inputs) == seq![
            store(0x3F00_B400, 499_999),
            store(0x3F00_B418, 499_999),
            store(0x3F00_B41C, 0xF9),
            store(0x3F00_B40C, 0),
            store(0x3F00_B408, 0x003E_00A2),
            store(0x3F00_B218, 1),
            Command::SelectOutput { pin: 20 },
            Command::SelectOutput { pin: 21 },
            Command::SelectOutput { pin: 22 },
            Command::EnableIrq,
        ],
        after(Display { step: DisplayStep::LoadShort, latched: 0 }, inputs).step
            == DisplayStep::ReadResetControl,
{
    reveal_with_fuel(trace, 11);
    reveal_with_fuel(after, 11);
    assert(inputs.drop_first().drop_first().drop_first().drop_first().drop_first().drop_first().drop_first().drop_first().drop_first().drop_first() =~= Seq::<u32>::empty());
}

} // verus!
