//! Bare-metal LED blinker programs for the Raspberry Pi 2 (BCM2836), written as
//! verified state machines.
//!
//! Each program is a [`command::Program`]: it names the next memory-mapped
//! register access (or other side effect) to perform and is told the value
//! that a read returned. Everything the programs decide (register values,
//! timer arithmetic, interrupt bookkeeping, watchdog configuration) lives here
//! and is proved against its contract; performing the accesses is left to the
//! caller.

pub mod register;
pub mod command;
pub mod gpio;
pub mod timer;
pub mod watchdog;
pub mod interrupt;
pub mod blinker01;
pub mod blinker02;
pub mod blinker03;
pub mod blinker04;
pub mod blinker05;
pub mod blinker06;
pub mod display;
