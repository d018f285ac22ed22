//! The side effects a program asks for, and the interface of a program.

use vstd::prelude::*;
use crate::register::GpioRegister;

verus! {

/// One step of outside work requested by a program.
#[derive(PartialEq, Eq, Structural, Clone, Copy, Debug)]
pub enum Command {
    /// Volatile load of a register; its value is handed back to the program.
    Read { register: GpioRegister },
    /// Volatile store of `value` into a register.
    Write { register: GpioRegister, value: u32 },
    /// Busy wait: call the external no-op routine `iterations` times.
    Sleep { iterations: u32 },
    /// Unmask interrupts on the CPU.
    EnableIrq,
    /// Drive a GPIO pin high (through the pin driver library).
    SetPin { pin: u32 },
    /// Drive a GPIO pin low (through the pin driver library).
    ClearPin { pin: u32 },
    /// Configure a GPIO pin as an output (through the pin driver library).
    SelectOutput { pin: u32 },
    /// Spin forever doing nothing.
    Halt,
}

/// Store `value` into the register at `address`.
pub open spec fn store(address: usize, value: u32) -> Command {
    Command::Write { register: GpioRegister { address }, value }
}

/// Load the register at `address`.
pub open spec fn load(address: usize) -> Command {
    Command::Read { register: GpioRegister { address } }
}

impl Command {
    /// The command goes to the pin driver library rather than to a register.
    pub open spec fn drives_pins(self) -> bool {
        match self {
            Command::SetPin { .. } | Command::ClearPin { .. } | Command::SelectOutput { .. } => true,
            _ => false,
        }
    }

    /// Every register that the command touches lies in the peripheral space.
    pub open spec fn in_peripheral_space(self) -> bool {
        match self {
            Command::Read { register } => register.in_peripheral_space_spec(),
            Command::Write { register, .. } => register.in_peripheral_space_spec(),
            _ => true,
        }
    }
}

/// The command that stores `value` at `address`.
pub fn write_to(address: usize, value: u32) -> (c: Command)
    ensures
        c == store(address, value),
{
    Command::Write { register: GpioRegister::new(address), value }
}

/// The command that loads the register at `address`.
pub fn read_from(address: usize) -> (c: Command)
    ensures
        c == load(address),
{
    Command::Read { register: GpioRegister::new(address) }
}

/// A program that alternates outside work and decisions.
///
/// The caller asks for the `command`, performs it, and hands back through
/// `advance` the value that a `Read` returned (any value for other commands).
pub trait Program: Sized {
    /// What the program asks for in this state.
    spec fn command_spec(&self) -> Command;

    /// The state after the current command was performed and returned `input`.
    spec fn advance_spec(&self, input: u32) -> Self;

    fn command(&self) -> (c: Command)
        ensures
            c == self.command_spec(),
    ;

    fn advance(&mut self, input: u32)
        ensures
            *final(self) == old(self).advance_spec(input),
    ;
}

/// The commands a program issues when the reads return `inputs` in turn.
pub open spec fn trace<P: Program>(p: P, inputs: Seq<u32>) -> Seq<Command>
    decreases inputs.len(),
{
    if inputs.len() == 0 {
        seq![]
    } else {
        seq![p.command_spec()] + trace(p.advance_spec(inputs[0]), inputs.drop_first())
    }
}

/// The state a program reaches after performing one command per input.
pub open spec fn after<P: Program>(p: P, inputs: Seq<u32>) -> P
    decreases inputs.len(),
{
    if inputs.len() == 0 {
        p
    } else {
        after(p.advance_spec(inputs[0]), inputs.drop_first())
    }
}

/// Running a program on `a` then on `b` is running it on `a + b`.
pub proof fn lemma_run_concat<P: Program>(p: P, a: Seq<u32>, b: Seq<u32>)
    ensures
        trace(p, a + b) == trace(p, a) + trace(after(p, a), b),
        after(p, a + b) == after(after(p, a), b),
    decreases a.len(),
{
    if a.len() == 0 {
        assert(a + b =~= b);
        assert(trace(p, a) + trace(after(p, a), b) =~= trace(p, b));
    } else {
        let q = p.advance_spec(a[0]);
        lemma_run_concat(q, a.drop_first(), b);
        assert((a + b).drop_first() =~= a.drop_first() + b);
        assert(seq![p.command_spec()] + (trace(q, a.drop_first()) + trace(after(q, a.drop_first()), b))
            =~= (seq![p.command_spec()] + trace(q, a.drop_first())) + trace(after(q, a.drop_first()), b));
    }
}

} // verus!
