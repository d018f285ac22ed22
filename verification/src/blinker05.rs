//! Fifth blinker: the ARM timer paced three ways in turn: by polling its
//! masked interrupt flag, by polling the interrupt controller, and finally by
//! its interrupt, whose handler blinks the LEDs.

use vstd::prelude::*;
use crate::command::{Command, Program, store, load, write_to, read_from, trace, after, lemma_run_concat};
use crate::gpio::{
    GPFSEL2, GPSET0, GPCLR0, GPIO20, GPIO21, GPIO22, outputs_20_to_22, fsel2_outputs_20_to_22,
};
use crate::interrupt::{IrqStep, next_count, timer_irq_steps, timer_irq_response};
use crate::timer::{
    ARM_TIMER_LOD, ARM_TIMER_CTL, ARM_TIMER_MIS, ARM_TIMER_CLI, ARM_TIMER_RLD, ARM_TIMER_DIV,
    IRQ_BASIC_PENDING, IRQ_BASIC_ENABLE, IRQ_BASIC_DISABLE, TIMER_PREDIVIDER, timer_irq_raised,
    basic_timer_irq_pending,
};

verus! {

/// Timer period, in ticks, while the masked flag is polled.
pub const LONG_TIMEOUT: u32 = 2_000_000;
/// Timer period, in ticks, while the interrupt controller is polled.
pub const MEDIUM_TIMEOUT: u32 = 1_000_000;
/// Timer period, in ticks, once interrupts drive the LEDs.
pub const SHORT_TIMEOUT: u32 = 500_000;

/// ARM timer control value: 32-bit timer running, interrupt enabled, with the
/// pre-scaler set.
pub const TIMER_CONTROL: u32 = 0x003E_00A2;

/// How the blinking loop learns that the timer has expired.
#[derive(PartialEq, Eq, Structural, Clone, Copy, Debug)]
pub enum WaitSource {
    /// The timer's masked interrupt register is non-zero.
    MaskedFlag,
    /// Bit 0 of the interrupt controller's basic pending register is set.
    BasicPending,
}

/// The register that a wait of the given kind reads.
pub open spec fn wait_register(source: WaitSource) -> usize {
    match source {
        WaitSource::MaskedFlag => ARM_TIMER_MIS,
        WaitSource::BasicPending => IRQ_BASIC_PENDING,
    }
}

/// Whether the value read by a wait of the given kind ends the wait.
pub open spec fn timer_expired(source: WaitSource, value: u32) -> bool {
    match source {
        WaitSource::MaskedFlag => value > 0,
        WaitSource::BasicPending => value % 2 == 1,
    }
}

/// How many blink periods the loop runs with the given kind of wait.
pub open spec fn rounds(source: WaitSource) -> u32 {
    match source {
        WaitSource::MaskedFlag => 2,
        WaitSource::BasicPending => 3,
    }
}

/// Where the fifth blinker stands.
#[derive(PartialEq, Eq, Structural, Clone, Copy, Debug)]
pub enum Blinker05Step {
    DisableTimerIrq,
    LoadLong,
    ReloadLong,
    WriteDivider,
    ClearIrq,
    StartTimer,
    ReadFsel2,
    WriteFsel2,
    SetPin20,
    ClearPin21,
    WaitLit,
    AckLit,
    ClearPin20,
    SetPin21,
    WaitDark,
    AckDark,
    LoadMedium,
    ReloadMedium,
    ClearIrqMedium,
    EnableTimerIrq,
    LoadShort,
    ReloadShort,
    EnableIrq,
    Halt,
}

/// The fifth blinker: with the timer's interrupt masked at the controller,
/// blink two periods polling the timer's masked flag; with a shorter period
/// and the interrupt unmasked at the controller, blink three periods polling
/// the controller; then shorten the period again, unmask interrupts on the
/// CPU and idle, leaving the blinking to the interrupt handler.
#[derive(PartialEq, Eq, Structural, Clone, Copy, Debug)]
pub struct Blinker05 {
    pub step: Blinker05Step,
    /// The kind of wait the blinking loop uses.
    pub source: WaitSource,
    /// Blink periods completed with the current kind of wait.
    pub round: u32,
    /// The last value read from a register.
    pub latched: u32,
}

impl Blinker05 {
    /// The program at its entry point.
    pub fn new() -> (m: Self)
        ensures
            m.step == Blinker05Step::DisableTimerIrq,
            m.source == WaitSource::MaskedFlag,
            m.round == 0,
            m.latched == 0,
            m.wf(),
    {
        Blinker05 {
            step: Blinker05Step::DisableTimerIrq,
            source: WaitSource::MaskedFlag,
            round: 0,
            latched: 0,
        }
    }

    /// Fewer periods have been completed than the loop runs; before the
    /// interrupt is unmasked at the controller the loop polls the masked flag,
    /// after it the controller; outside the loop no period is counted.
    pub open spec fn wf(self) -> bool {
        &&& self.round < rounds(self.source)
        &&& loop_place(self.step) < 0 ==> self.round == 0
        &&& 0 <= place_outside_loop(self.step) < 28 ==> self.source == WaitSource::MaskedFlag
        &&& 28 <= place_outside_loop(self.step) ==> self.source == WaitSource::BasicPending
    }

    /// The place of the program along its run, from 0 at its entry point to 55
    /// at its idle loop. Each period of the blinking loop takes eight places:
    /// places 8 to 23 hold the two periods that poll the masked flag, 28 to 51
    /// the three that poll the controller.
    pub open spec fn place(self) -> int {
        if loop_place(self.step) >= 0 {
            (if self.source == WaitSource::MaskedFlag { 8int } else { 28int }) + 8 * self.round
                + loop_place(self.step)
        } else {
            place_outside_loop(self.step)
        }
    }
}

impl Program for Blinker05 {
    open spec fn command_spec(&self) -> Command {
        match self.step {
            Blinker05Step::DisableTimerIrq => store(IRQ_BASIC_DISABLE, 1),
            Blinker05Step::LoadLong => store(ARM_TIMER_LOD, (LONG_TIMEOUT - 1) as u32),
            Blinker05Step::ReloadLong => store(ARM_TIMER_RLD, (LONG_TIMEOUT - 1) as u32),
            Blinker05Step::WriteDivider => store(ARM_TIMER_DIV, TIMER_PREDIVIDER),
            Blinker05Step::ClearIrq => store(ARM_TIMER_CLI, 0),
            Blinker05Step::StartTimer => store(ARM_TIMER_CTL, TIMER_CONTROL),
            Blinker05Step::ReadFsel2 => load(GPFSEL2),
            Blinker05Step::WriteFsel2 => store(GPFSEL2, fsel2_outputs_20_to_22(self.latched)),
            Blinker05Step::SetPin20 => store(GPSET0, GPIO20),
            Blinker05Step::ClearPin21 => store(GPCLR0, GPIO21),
            Blinker05Step::WaitLit => load(wait_register(self.source)),
            Blinker05Step::AckLit => store(ARM_TIMER_CLI, 0),
            Blinker05Step::ClearPin20 => store(GPCLR0, GPIO20),
            Blinker05Step::SetPin21 => store(GPSET0, GPIO21),
            Blinker05Step::WaitDark => load(wait_register(self.source)),
            Blinker05Step::AckDark => store(ARM_TIMER_CLI, 0),
            Blinker05Step::LoadMedium => store(ARM_TIMER_LOD, (MEDIUM_TIMEOUT - 1) as u32),
            Blinker05Step::ReloadMedium => store(ARM_TIMER_RLD, (MEDIUM_TIMEOUT - 1) as u32),
            Blinker05Step::ClearIrqMedium => store(ARM_TIMER_CLI, 0),
            Blinker05Step::EnableTimerIrq => store(IRQ_BASIC_ENABLE, 1),
            Blinker05Step::LoadShort => store(ARM_TIMER_LOD, (SHORT_TIMEOUT - 1) as u32),
            Blinker05Step::ReloadShort => store(ARM_TIMER_RLD, (SHORT_TIMEOUT - 1) as u32),
            Blinker05Step::EnableIrq => Command::EnableIrq,
            Blinker05Step::Halt => Command::Halt,
        }
    }

    open spec fn advance_spec(&self, input: u32) -> Self {
        match self.step {
            Blinker05Step::DisableTimerIrq => Blinker05 { step: Blinker05Step::LoadLong, ..*self },
            Blinker05Step::LoadLong => Blinker05 { step: Blinker05Step::ReloadLong, ..*self },
            Blinker05Step::ReloadLong => Blinker05 { step: Blinker05Step::WriteDivider, ..*self },
            Blinker05Step::WriteDivider => Blinker05 { step: Blinker05Step::ClearIrq, ..*self },
            Blinker05Step::ClearIrq => Blinker05 { step: Blinker05Step::StartTimer, ..*self },
            Blinker05Step::StartTimer => Blinker05 { step: Blinker05Step::ReadFsel2, ..*self },
            Blinker05Step::ReadFsel2 => Blinker05 {
                step: Blinker05Step::WriteFsel2,
                latched: input,
                ..*self
            },
            Blinker05Step::WriteFsel2 => Blinker05 { step: Blinker05Step::SetPin20, ..*self },
            Blinker05Step::SetPin20 => Blinker05 { step: Blinker05Step::ClearPin21, ..*self },
            Blinker05Step::ClearPin21 => Blinker05 { step: Blinker05Step::WaitLit, ..*self },
            Blinker05Step::WaitLit => if timer_expired(self.source, input) {
                Blinker05 { step: Blinker05Step::AckLit, ..*self }
            } else {
                *self
            },
            Blinker05Step::AckLit => Blinker05 { step: Blinker05Step::ClearPin20, ..*self },
            Blinker05Step::ClearPin20 => Blinker05 { step: Blinker05Step::SetPin21, ..*self },
            Blinker05Step::SetPin21 => Blinker05 { step: Blinker05Step::WaitDark, ..*self },
            Blinker05Step::WaitDark => if timer_expired(self.source, input) {
                Blinker05 { step: Blinker05Step::AckDark, ..*self }
            } else {
                *self
            },
            Blinker05Step::AckDark => if self.round + 1 < rounds(self.source) {
                Blinker05 { step: Blinker05Step::SetPin20, round: (self.round + 1) as u32, ..*self }
            } else if self.source == WaitSource::MaskedFlag {
                Blinker05 { step: Blinker05Step::LoadMedium, round: 0, ..*self }
            } else {
                Blinker05 { step: Blinker05Step::LoadShort, round: 0, ..*self }
            },
            Blinker05Step::LoadMedium => Blinker05 { step: Blinker05Step::ReloadMedium, ..*self },
            Blinker05Step::ReloadMedium => Blinker05 { step: Blinker05Step::ClearIrqMedium, ..*self },
            Blinker05Step::ClearIrqMedium => Blinker05 { step: Blinker05Step::EnableTimerIrq, ..*self },
            Blinker05Step::EnableTimerIrq => Blinker05 {
                step: Blinker05Step::SetPin20,
                source: WaitSource::BasicPending,
                round: 0,
                ..*self
            },
            Blinker05Step::LoadShort => Blinker05 { step: Blinker05Step::ReloadShort, ..*self },
            Blinker05Step::ReloadShort => Blinker05 { step: Blinker05Step::EnableIrq, ..*self },
            Blinker05Step::EnableIrq => Blinker05 { step: Blinker05Step::Halt, ..*self },
            Blinker05Step::Halt => *self,
        }
    }

    fn command(&self) -> (c: Command) {
        let wait_at: usize = match self.source {
            WaitSource::MaskedFlag => ARM_TIMER_MIS,
            WaitSource::BasicPending => IRQ_BASIC_PENDING,
        };
        match self.step {
            Blinker05Step::DisableTimerIrq => write_to(IRQ_BASIC_DISABLE, 1),
            Blinker05Step::LoadLong => write_to(ARM_TIMER_LOD, LONG_TIMEOUT - 1),
            Blinker05Step::ReloadLong => write_to(ARM_TIMER_RLD, LONG_TIMEOUT - 1),
            Blinker05Step::WriteDivider => write_to(ARM_TIMER_DIV, TIMER_PREDIVIDER),
            Blinker05Step::ClearIrq => write_to(ARM_TIMER_CLI, 0),
            Blinker05Step::StartTimer => write_to(ARM_TIMER_CTL, TIMER_CONTROL),
            Blinker05Step::ReadFsel2 => read_from(GPFSEL2),
            Blinker05Step::WriteFsel2 => write_to(GPFSEL2, outputs_20_to_22(self.latched)),
            Blinker05Step::SetPin20 => write_to(GPSET0, GPIO20),
            Blinker05Step::ClearPin21 => write_to(GPCLR0, GPIO21),
            Blinker05Step::WaitLit => read_from(wait_at),
            Blinker05Step::AckLit => write_to(ARM_TIMER_CLI, 0),
            Blinker05Step::ClearPin20 => write_to(GPCLR0, GPIO20),
            Blinker05Step::SetPin21 => write_to(GPSET0, GPIO21),
            Blinker05Step::WaitDark => read_from(wait_at),
            Blinker05Step::AckDark => write_to(ARM_TIMER_CLI, 0),
            Blinker05Step::LoadMedium => write_to(ARM_TIMER_LOD, MEDIUM_TIMEOUT - 1),
            Blinker05Step::ReloadMedium => write_to(ARM_TIMER_RLD, MEDIUM_TIMEOUT - 1),
            Blinker05Step::ClearIrqMedium => write_to(ARM_TIMER_CLI, 0),
            Blinker05Step::EnableTimerIrq => write_to(IRQ_BASIC_ENABLE, 1),
            Blinker05Step::LoadShort => write_to(ARM_TIMER_LOD, SHORT_TIMEOUT - 1),
            Blinker05Step::ReloadShort => write_to(ARM_TIMER_RLD, SHORT_TIMEOUT - 1),
            Blinker05Step::EnableIrq => Command::EnableIrq,
            Blinker05Step::Halt => Command::Halt,
        }
    }

    fn advance(&mut self, input: u32) {
        let expired = match self.source {
            WaitSource::MaskedFlag => timer_irq_raised(input),
            WaitSource::BasicPending => basic_timer_irq_pending(input),
        };
        let last_round: u32 = match self.source {
            WaitSource::MaskedFlag => 1,
            WaitSource::BasicPending => 2,
        };
        match self.step {
            Blinker05Step::DisableTimerIrq => self.step = Blinker05Step::LoadLong,
            Blinker05Step::LoadLong => self.step = Blinker05Step::ReloadLong,
            Blinker05Step::ReloadLong => self.step = Blinker05Step::WriteDivider,
            Blinker05Step::WriteDivider => self.step = Blinker05Step::ClearIrq,
            Blinker05Step::ClearIrq => self.step = Blinker05Step::StartTimer,
            Blinker05Step::StartTimer => self.step = Blinker05Step::ReadFsel2,
            Blinker05Step::ReadFsel2 => {
                self.latched = input;
                self.step = Blinker05Step::WriteFsel2;
            },
            Blinker05Step::WriteFsel2 => self.step = Blinker05Step::SetPin20,
            Blinker05Step::SetPin20 => self.step = Blinker05Step::ClearPin21,
            Blinker05Step::ClearPin21 => self.step = Blinker05Step::WaitLit,
            Blinker05Step::WaitLit => {
                if expired {
                    self.step = Blinker05Step::AckLit;
                }
            },
            Blinker05Step::AckLit => self.step = Blinker05Step::ClearPin20,
            Blinker05Step::ClearPin20 => self.step = Blinker05Step::SetPin21,
            Blinker05Step::SetPin21 => self.step = Blinker05Step::WaitDark,
            Blinker05Step::WaitDark => {
                if expired {
                    self.step = Blinker05Step::AckDark;
                }
            },
            Blinker05Step::AckDark => {
                if self.round < last_round {
                    self.round = self.round + 1;
                    self.step = Blinker05Step::SetPin20;
                } else {
                    self.round = 0;
                    self.step = match self.source {
                        WaitSource::MaskedFlag => Blinker05Step::LoadMedium,
                        WaitSource::BasicPending => Blinker05Step::LoadShort,
                    };
                }
            },
            Blinker05Step::LoadMedium => self.step = Blinker05Step::ReloadMedium,
            Blinker05Step::ReloadMedium => self.step = Blinker05Step::ClearIrqMedium,
            Blinker05Step::ClearIrqMedium => self.step = Blinker05Step::EnableTimerIrq,
            Blinker05Step::EnableTimerIrq => {
                self.source = WaitSource::BasicPending;
                self.round = 0;
                self.step = Blinker05Step::SetPin20;
            },
            Blinker05Step::LoadShort => self.step = Blinker05Step::ReloadShort,
            Blinker05Step::ReloadShort => self.step = Blinker05Step::EnableIrq,
            Blinker05Step::EnableIrq => self.step = Blinker05Step::Halt,
            Blinker05Step::Halt => {},
        }
    }
}

/// The place of a step within one period of the blinking loop, or -1 for a
/// step outside the loop.
pub open spec fn loop_place(step: Blinker05Step) -> int {
    match step {
        Blinker05Step::SetPin20 => 0,
        Blinker05Step::ClearPin21 => 1,
        Blinker05Step::WaitLit => 2,
        Blinker05Step::AckLit => 3,
        Blinker05Step::ClearPin20 => 4,
        Blinker05Step::SetPin21 => 5,
        Blinker05Step::WaitDark => 6,
        Blinker05Step::AckDark => 7,
        _ => -1,
    }
}

/// The place along the run of a step outside the blinking loop (-1 for a
/// step of the loop).
pub open spec fn place_outside_loop(step: Blinker05Step) -> int {
    match step {
        Blinker05Step::DisableTimerIrq => 0,
        Blinker05Step::LoadLong => 1,
        Blinker05Step::ReloadLong => 2,
        Blinker05Step::WriteDivider => 3,
        Blinker05Step::ClearIrq => 4,
        Blinker05Step::StartTimer => 5,
        Blinker05Step::ReadFsel2 => 6,
        Blinker05Step::WriteFsel2 => 7,
        Blinker05Step::LoadMedium => 24,
        Blinker05Step::ReloadMedium => 25,
        Blinker05Step::ClearIrqMedium => 26,
        Blinker05Step::EnableTimerIrq => 27,
        Blinker05Step::LoadShort => 52,
        Blinker05Step::ReloadShort => 53,
        Blinker05Step::EnableIrq => 54,
        Blinker05Step::Halt => 55,
        _ => -1,
    }
}

/// The program stays where it is on this read: it is idle, or it waits and
/// the read does not show the timer expired.
pub open spec fn stays(m: Blinker05, input: u32) -> bool {
    ||| m.step == Blinker05Step::Halt
    ||| (m.step == Blinker05Step::WaitLit || m.step == Blinker05Step::WaitDark) && !timer_expired(
        m.source,
        input,
    )
}

/// Where the blinking loop goes once it has run its periods with the given
/// kind of wait.
pub open spec fn loop_exit(source: WaitSource) -> Blinker05Step {
    match source {
        WaitSource::MaskedFlag => Blinker05Step::LoadMedium,
        WaitSource::BasicPending => Blinker05Step::LoadShort,
    }
}

/// `n` reads that all return 1, which ends every wait of either kind.
pub open spec fn expiring_reads(n: nat) -> Seq<u32> {
    Seq::new(n, |_i: int| 1u32)
}

/// The fewer-periods-than-the-loop-runs invariant is kept by every step.
pub proof fn lemma_blinker05_wf(m: Blinker05, input: u32)
    requires
        m.wf(),
    ensures
        m.advance_spec(input).wf(),
{
}

/// Loop: when each wait sees the timer expired at its first reading, one
/// period lights pin 20 with pin 21 dark, clears the timer interrupt, swaps
/// the pins, clears it again, and then either starts the next period or, after
/// the last one, leaves the loop.
pub proof fn lemma_blinker05_period(m: Blinker05, inputs: Seq<u32>)
    requires
        m.step == Blinker05Step::SetPin20,
        m.wf(),
        inputs.len() == 8,
        timer_expired(m.source, inputs[2]),
        timer_expired(m.source, inputs[6]),
    ensures
        trace(m, inputs) == seq![
            store(GPSET0, GPIO20),
            store(GPCLR0, GPIO21),
            load(wait_register(m.source)),
            store(ARM_TIMER_CLI, 0),
            store(GPCLR0, GPIO20),
            store(GPSET0, GPIO21),
            load(wait_register(m.source)),
            store(ARM_TIMER_CLI, 0),
        ],
        after(m, inputs) == (if m.round + 1 < rounds(m.source) {
            Blinker05 { step: Blinker05Step::SetPin20, round: (m.round + 1) as u32, ..m }
        } else {
            Blinker05 { step: loop_exit(m.source), round: 0, ..m }
        }),
{
    reveal_with_fuel(trace, 9);
    reveal_with_fuel(after, 9);
    assert(inputs.drop_first().drop_first().drop_first().drop_first().drop_first().drop_first().drop_first().drop_first()
        =~= Seq::<u32>::empty());
}

/// Whole run: when the timer is found expired at every first reading, the
/// program blinks exactly two periods polling the masked flag, then, once the
/// interrupt is unmasked at the controller, exactly three polling the
/// controller, and then idles for good.
pub proof fn lemma_blinker05_run()
    ensures
        after(
            Blinker05 {
                step: Blinker05Step::DisableTimerIrq,
                source: WaitSource::MaskedFlag,
                round: 0,
                latched: 0,
            },
            expiring_reads(28),
        ) == (Blinker05 {
            step: Blinker05Step::SetPin20,
            source: WaitSource::BasicPending,
            round: 0,
            latched: 1,
        }),
        after(
            Blinker05 {
                step: Blinker05Step::DisableTimerIrq,
                source: WaitSource::MaskedFlag,
                round: 0,
                latched: 0,
            },
            expiring_reads(55),
        ).step == Blinker05Step::Halt,
        forall|n: nat| #![trigger expiring_reads(n)]
            n >= 55 ==> after(
                Blinker05 {
                    step: Blinker05Step::DisableTimerIrq,
                    source: WaitSource::MaskedFlag,
                    round: 0,
                    latched: 0,
                },
                expiring_reads(n),
            ).step == Blinker05Step::Halt,
{
    let m0 = Blinker05 {
        step: Blinker05Step::DisableTimerIrq,
        source: WaitSource::MaskedFlag,
        round: 0,
        latched: 0,
    };
    // setup: eight commands
    reveal_with_fuel(after, 9);
    let r8 = expiring_reads(8);
    assert(r8.drop_first().drop_first().drop_first().drop_first().drop_first().drop_first().drop_first().drop_first()
        =~= Seq::<u32>::empty());
    let m1 = after(m0, r8);
    assert(m1 == Blinker05 { step: Blinker05Step::SetPin20, latched: 1, ..m0 });
    // two periods polling the masked flag
    lemma_blinker05_period(m1, r8);
    let m2 = after(m1, r8);
    lemma_blinker05_period(m2, r8);
    let m3 = after(m2, r8);
    assert(m3.step == Blinker05Step::LoadMedium);
    // four commands unmask the interrupt at the controller
    let r4 = expiring_reads(4);
    assert(r4.drop_first().drop_first().drop_first().drop_first() =~= Seq::<u32>::empty());
    let m4 = after(m3, r4);
    assert(m4 == Blinker05 {
        step: Blinker05Step::SetPin20,
        source: WaitSource::BasicPending,
        round: 0,
        latched: 1,
    });
    assert(expiring_reads(28) =~= r8 + r8 + r8 + r4);
    lemma_run_concat(m0, r8, r8);
    lemma_run_concat(m0, r8 + r8, r8);
    lemma_run_concat(m0, r8 + r8 + r8, r4);
    // three periods polling the controller
    lemma_blinker05_period(m4, r8);
    let m5 = after(m4, r8);
    lemma_blinker05_period(m5, r8);
    let m6 = after(m5, r8);
    lemma_blinker05_period(m6, r8);
    let m7 = after(m6, r8);
    assert(m7.step == Blinker05Step::LoadShort);
    // three commands shorten the period and unmask interrupts on the CPU
    let r3 = expiring_reads(3);
    assert(r3.drop_first().drop_first().drop_first() =~= Seq::<u32>::empty());
    let m8 = after(m7, r3);
    assert(m8.step == Blinker05Step::Halt);
    let r28 = expiring_reads(28);
    assert(expiring_reads(55) =~= r28 + r8 + r8 + r8 + r3);
    lemma_run_concat(m0, r28, r8);
    lemma_run_concat(m0, r28 + r8, r8);
    lemma_run_concat(m0, r28 + r8 + r8, r8);
    lemma_run_concat(m0, r28 + r8 + r8 + r8, r3);
    assert forall|n: nat| #![trigger expiring_reads(n)] n >= 55 implies after(m0, expiring_reads(n)).step
        == Blinker05Step::Halt by {
        let rest = expiring_reads((n - 55) as nat);
        assert(expiring_reads(n) =~= expiring_reads(55) + rest);
        lemma_run_concat(m0, expiring_reads(55), rest);
        lemma_blinker05_halt_stays(after(m0, expiring_reads(55)), rest);
    }
}

/// Once idle, the program stays idle whatever it is handed.
pub proof fn lemma_blinker05_halt_stays(m: Blinker05, inputs: Seq<u32>)
    requires
        m.step == Blinker05Step::Halt,
    ensures
        after(m, inputs) == m,
        m.command_spec() == Command::Halt,
    decreases inputs.len(),
{
    if inputs.len() > 0 {
        lemma_blinker05_halt_stays(m.advance_spec(inputs[0]), inputs.drop_first());
    }
}

/// A wait reads its register again, and stays, for as long as the value read
/// does not show the timer expired.
pub proof fn lemma_blinker05_waits(m: Blinker05, input: u32)
    requires
        m.step == Blinker05Step::WaitLit || m.step == Blinker05Step::WaitDark,
        !timer_expired(m.source, input),
    ensures
        m.command_spec() == load(wait_register(m.source)),
        m.advance_spec(input) == m,
{
}

/// Progress, whatever the read: the program either stays where it is (idle,
/// or at a wait whose read does not show the timer expired) or moves exactly
/// one place on along its run; its place lies between 0 and 55, and 55 is the
/// idle loop.
pub proof fn lemma_blinker05_progress(m: Blinker05, input: u32)
    requires
        m.wf(),
    ensures
        m.advance_spec(input).wf(),
        0 <= m.place() <= 55,
        (m.place() == 55) == (m.step == Blinker05Step::Halt),
        stays(m, input) ==> m.advance_spec(input) == m,
        !stays(m, input) ==> m.advance_spec(input).place() == m.place() + 1,
{
}

/// Whole run, whatever the reads: the program keeps its invariant and, after
/// one command per read, has moved on by at most one place per read and never
/// past its idle loop.
pub proof fn lemma_blinker05_any_reads(m: Blinker05, inputs: Seq<u32>)
    requires
        m.wf(),
    ensures
        after(m, inputs).wf(),
        m.place() <= after(m, inputs).place() <= m.place() + inputs.len(),
        after(m, inputs).place() <= 55,
    decreases inputs.len(),
{
    lemma_blinker05_progress(m, 0);
    if inputs.len() > 0 {
        lemma_blinker05_progress(m, inputs[0]);
        lemma_blinker05_any_reads(m.advance_spec(inputs[0]), inputs.drop_first());
    }
}

/// The place determines the state: two programs at the same place have the
/// same step, kind of wait and period count, so they issue the same command
/// unless they hold different values read from GPFSEL2.
pub proof fn lemma_blinker05_place_determines_state(m1: Blinker05, m2: Blinker05)
    requires
        m1.wf(),
        m2.wf(),
        m1.place() == m2.place(),
    ensures
        m1.step == m2.step,
        m1.source == m2.source,
        m1.round == m2.round,
        m1.latched == m2.latched ==> m1 == m2,
{
}

/// Every register the program touches lies in the peripheral address space.
/// The program never asks the pin driver library for anything: it drives
/// its pins through the GPIO registers.
pub proof fn lemma_blinker05_peripheral_only(m: Blinker05)
    ensures
        m.command_spec().in_peripheral_space(),
        !m.command_spec().drives_pins(),
{
    crate::register::lemma_peripheral_addresses();
}

/// Consecutive interrupts swap pins 20 and 21: the handler lights pin 20 and
/// darkens pin 21 on one interrupt exactly when it does the opposite on the
/// next, across the counter's wrap-around too.
pub proof fn lemma_blinker05_irq_alternates(counter: u32)
    ensures
        (irq_leds(counter)[0] == store(GPSET0, GPIO20)) == (irq_leds(next_count(counter))[0]
            == store(GPCLR0, GPIO20)),
        (irq_leds(counter)[1] == store(GPCLR0, GPIO21)) == (irq_leds(next_count(counter))[1]
            == store(GPSET0, GPIO21)),
{
    crate::interrupt::lemma_next_count_parity(counter);
}

/// Pin 22 is switched on every other interrupt, alternately on and off: the
/// handler leaves it alone on odd counts, and of two successive even counts
/// it lights it on one and darkens it on the other.
pub proof fn lemma_blinker05_irq_blue(counter: u32)
    ensures
        counter % 2 == 1 ==> irq_leds(counter).len() == 2,
        counter % 2 == 0 ==> irq_leds(counter).len() == 3 && irq_leds(
            next_count(next_count(counter)),
        ).len() == 3 && (irq_leds(counter)[2] == store(GPSET0, GPIO22)) == (irq_leds(
            next_count(next_count(counter)),
        )[2] == store(GPCLR0, GPIO22)),
{
    if counter % 2 == 0 {
        let later = next_count(next_count(counter));
        crate::interrupt::lemma_next_count_quarter(counter);
        crate::interrupt::lemma_next_count_parity(counter);
        crate::interrupt::lemma_next_count_parity(next_count(counter));
        assert(later % 2 == 0);
        assert((counter % 4 == 0) == (later % 4 == 2));
        assert(irq_leds(later)[2] == (if later % 4 == 0 {
            store(GPSET0, GPIO22)
        } else {
            store(GPCLR0, GPIO22)
        }));
    }
}

/// The LED commands of the interrupt handler for the interrupt count
/// `counter`: on even counts pin 20 lit, pin 21 dark, and pin 22 lit when the
/// count is a multiple of four, dark otherwise; on odd counts pin 20 dark and
/// pin 21 lit.
pub open spec fn irq_leds(counter: u32) -> Seq<Command> {
    if counter % 2 == 0 {
        seq![
            store(GPSET0, GPIO20),
            store(GPCLR0, GPIO21),
            if counter % 4 == 0 {
                store(GPSET0, GPIO22)
            } else {
                store(GPCLR0, GPIO22)
            },
        ]
    } else {
        seq![store(GPCLR0, GPIO20), store(GPSET0, GPIO21)]
    }
}

/// What the timer interrupt handler does, in order, for the interrupt count
/// `state_counter`: the LED commands, saving the next count, acknowledging the timer.
pub fn irq_response(state_counter: u32) -> (r: Vec<IrqStep>)
    ensures
        r@ == timer_irq_steps(irq_leds(state_counter), state_counter),
{
    let mut leds: Vec<Command> = Vec::new();
    if state_counter % 2 == 0 {
        leds.push(write_to(GPSET0, GPIO20));
        leds.push(write_to(GPCLR0, GPIO21));
        if state_counter % 4 == 0 {
            leds.push(write_to(GPSET0, GPIO22));
        } else {
            leds.push(write_to(GPCLR0, GPIO22));
        }
    } else {
        leds.push(write_to(GPCLR0, GPIO20));
        leds.push(write_to(GPSET0, GPIO21));
    }
    assert(leds@ =~= irq_leds(state_counter));
    timer_irq_response(leds, state_counter)
}

/// Setup, whatever the reads: the program masks the timer interrupt at the
/// controller, loads and reloads the timer with 1_999_999, sets the
/// pre-divider 0xF9, clears the timer interrupt, runs the timer with its
/// interrupt enabled, and writes GPFSEL2 back with pins 20 to 22 (slots 0 to
/// 2) made outputs and every other pin kept; then it starts its first period
/// polling the masked flag.
pub proof fn lemma_blinker05_setup(inputs: Seq<u32>)
    requires
        inputs.len() == 8,
    ensures
        trace(
            Blinker05 {
                step: Blinker05Step::DisableTimerIrq,
                source: WaitSource::MaskedFlag,
                round: 0,
                latched: 0,
            },
            inputs,
        ) == seq![
            store(0x3F00_B224, 1),
            store(0x3F00_B400, 1_999_999),
            store(0x3F00_B418, 1_999_999),
            store(0x3F00_B41C, 0xF9),
            store(0x3F00_B40C, 0),
            store(0x3F00_B408, 0x003E_00A2),
            load(0x3F20_0008),
            store(0x3F20_0008, crate::gpio::with_output(crate::gpio::with_output(crate::gpio::with_output(inputs[6], 0), 1), 2)),
        ],
        crate::gpio::first_slots_made_outputs(inputs[6], crate::gpio::with_output(crate::gpio::with_output(crate::gpio::with_output(inputs[6], 0), 1), 2), 3),
        after(
            Blinker05 {
                step: Blinker05Step::DisableTimerIrq,
                source: WaitSource::MaskedFlag,
                round: 0,
                latched: 0,
            },
            inputs,
        ) == (Blinker05 {
            step: Blinker05Step::SetPin20,
            source: WaitSource::MaskedFlag,
            round: 0,
            latched: inputs[6],
        }),
{
    crate::gpio::lemma_outputs_20_to_22(inputs[6]);
    reveal_with_fuel(trace, 9);
    reveal_with_fuel(after, 9);
    assert(inputs.drop_first().drop_first().drop_first().drop_first().drop_first().drop_first().drop_first().drop_first() =~= Seq::<u32>::empty());
}

/// Between the two polled phases, whatever the reads: the program loads and
/// reloads the timer with 999_999, clears the timer interrupt and unmasks it
/// at the controller, then starts polling the controller.
pub proof fn lemma_blinker05_unmask_at_controller(m: Blinker05, inputs: Seq<u32>)
    requires
        m.step == Blinker05Step::LoadMedium,
        inputs.len() == 4,
    ensures
        trace(m, inputs) == seq![
            store(0x3F00_B400, 999_999),
            store(0x3F00_B418, 999_999),
            store(0x3F00_B40C, 0),
            store(0x3F00_B218, 1),
        ],
        after(m, inputs).step == Blinker05Step::SetPin20,
        after(m, inputs).source == WaitSource::BasicPending,
        after(m, inputs).round == 0,
{
    reveal_with_fuel(trace, 5);
    reveal_with_fuel(after, 5);
    assert(inputs.drop_first().drop_first().drop_first().drop_first() =~= Seq::<u32>::empty());
}

/// Hand-over to the interrupt, whatever the reads: the program loads and
/// reloads the timer with 499_999, unmasks interrupts on the CPU and idles.
pub proof fn lemma_blinker05_hand_over(m: Blinker05, inputs: Seq<u32>)
    requires
        m.step == Blinker05Step::LoadShort,
        inputs.len() == 4,
    ensures
        trace(m, inputs) == seq![
            store(0x3F00_B400, 499_999),
            store(0x3F00_B418, 499_999),
            Command::EnableIrq,
            Command::Halt,
        ],
        after(m, inputs).step == Blinker05Step::Halt,
{
    reveal_with_fuel(trace, 5);
    reveal_with_fuel(after, 5);
    assert(inputs.drop_first().drop_first().drop_first().drop_first() =~= Seq::<u32>::empty());
}

} // verus!
