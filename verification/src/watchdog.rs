//! The power-management watchdog: the values that start it, the store that
//! stops it, and the time it has left.

use vstd::prelude::*;
use crate::command::{Command, store, load, write_to, read_from};

verus! {

/// Power-management reset control register.
pub const PM_RSTC: usize = 0x3F10_001C;
/// Power-management watchdog register.
pub const PM_WDOG: usize = 0x3F10_0024;

/// Password that every write to the power-management registers must carry.
pub const PM_PASSWORD: u32 = 0x5A00_0000;
/// Field of the watchdog register that holds the time.
pub const PM_WDOG_TIME_SET: u32 = 0x000F_FFFF;
/// Mask that clears the reset configuration field of PM_RSTC.
pub const PM_RSTC_WRCFG_CLR: u32 = 0xFFFF_FFCF;
/// Reset configuration: full reset.
pub const PM_RSTC_WRCFG_FULL_RESET: u32 = 0x0000_0020;
/// Reset configuration written to stop the watchdog.
pub const PM_RSTC_RESET: u32 = 0x0000_0102;

/// The PM_WDOG value that arms the watchdog with `timeout` ticks.
pub open spec fn wdog_start_value(timeout: u32) -> u32 {
    PM_PASSWORD | (timeout & PM_WDOG_TIME_SET)
}

/// The PM_RSTC value that selects a full reset, given the value read from PM_RSTC.
pub open spec fn rstc_start_value(reset_val: u32) -> u32 {
    PM_PASSWORD | (reset_val & PM_RSTC_WRCFG_CLR) | PM_RSTC_WRCFG_FULL_RESET
}

/// The time left that a PM_WDOG value holds.
pub open spec fn time_left(wdog_val: u32) -> u32 {
    wdog_val & PM_WDOG_TIME_SET
}

/// The read that begins starting the watchdog: PM_RSTC, whose value the
/// new reset configuration is built from.
pub open spec fn start_read() -> Command {
    load(PM_RSTC)
}

/// The stores that arm the watchdog with `timeout` ticks, in order, given
/// the value `reset_val` read from PM_RSTC: first the time into PM_WDOG, then
/// the full-reset configuration into PM_RSTC.
pub open spec fn start_stores(timeout: u32, reset_val: u32) -> Seq<Command> {
    seq![store(PM_WDOG, wdog_start_value(timeout)), store(PM_RSTC, rstc_start_value(reset_val))]
}

/// Everything that starting the watchdog does, in order, when PM_RSTC reads
/// `reset_val`: one read of PM_RSTC, then the two stores.
pub open spec fn start_sequence(timeout: u32, reset_val: u32) -> Seq<Command> {
    seq![start_read()] + start_stores(timeout, reset_val)
}

/// The command that reads PM_RSTC before the watchdog is armed.
pub fn reset_control_read() -> (c: Command)
    ensures
        c == start_read(),
{
    read_from(PM_RSTC)
}

/// The stores, in order, that arm the watchdog with `timeout` ticks, given
/// the value `reset_val` read from PM_RSTC.
pub fn start(timeout: u32, reset_val: u32) -> (stores: Vec<Command>)
    ensures
        stores@ == start_stores(timeout, reset_val),
        // the password is carried, the time field holds the low 20 bits of the timeout
        wdog_start_value(timeout) & 0xFFF0_0000 == PM_PASSWORD,
        wdog_start_value(timeout) & PM_WDOG_TIME_SET == timeout & PM_WDOG_TIME_SET,
        // PM_RSTC: password carried, reset configuration is full reset, other bits kept
        rstc_start_value(reset_val) & PM_PASSWORD == PM_PASSWORD,
        rstc_start_value(reset_val) & 0x30 == PM_RSTC_WRCFG_FULL_RESET,
        rstc_start_value(reset_val) & !0x5A00_0030u32 == reset_val & !0x5A00_0030u32,
{
    let wdog = PM_PASSWORD | (timeout & PM_WDOG_TIME_SET);
    let rstc = PM_PASSWORD | (reset_val & PM_RSTC_WRCFG_CLR) | PM_RSTC_WRCFG_FULL_RESET;
    assert(wdog & 0xFFF0_0000 == 0x5A00_0000 && wdog & 0x000F_FFFF == timeout & 0x000F_FFFF)
        by (bit_vector)
        requires
            wdog == 0x5A00_0000u32 | (timeout & 0x000F_FFFFu32),
    ;
    assert(rstc & 0x5A00_0000 == 0x5A00_0000 && rstc & 0x30 == 0x20 && rstc & !0x5A00_0030u32
        == reset_val & !0x5A00_0030u32) by (bit_vector)
        requires
            rstc == 0x5A00_0000u32 | (reset_val & 0xFFFF_FFCFu32) | 0x20u32,
    ;
    let mut stores: Vec<Command> = Vec::new();
    stores.push(write_to(PM_WDOG, wdog));
    stores.push(write_to(PM_RSTC, rstc));
    assert(stores@ =~= start_stores(timeout, reset_val));
    stores
}

/// The store that stops the watchdog: PM_RSTC gets the password with the
/// reset configuration that disarms it. Nothing is read, so it is the same
/// store whatever the registers hold.
pub fn stop() -> (c: Command)
    ensures
        c == store(PM_RSTC, PM_PASSWORD | PM_RSTC_RESET),
        c == store(PM_RSTC, 0x5A00_0102),
{
    assert(0x5A00_0000u32 | 0x0000_0102u32 == 0x5A00_0102u32) by (bit_vector);
    write_to(PM_RSTC, PM_PASSWORD | PM_RSTC_RESET)
}

/// The time left, in ticks, given the value read from PM_WDOG.
pub fn remaining_time(wdog_val: u32) -> (t: u32)
    ensures
        t == time_left(wdog_val),
        t <= PM_WDOG_TIME_SET,
{
    assert(wdog_val & 0x000F_FFFFu32 <= 0x000F_FFFFu32) by (bit_vector);
    wdog_val & PM_WDOG_TIME_SET
}

/// Reading the watchdog register straight after `start(timeout, _)` stored
/// its value gives back the timeout, cut to the 20 bits of the time field.
pub proof fn lemma_remaining_time_after_start(timeout: u32)
    ensures
        time_left(wdog_start_value(timeout)) == timeout & PM_WDOG_TIME_SET,
{
    assert(((0x5A00_0000u32 | (timeout & 0x000F_FFFFu32)) & 0x000F_FFFFu32) == timeout
        & 0x000F_FFFFu32) by (bit_vector);
}

} // verus!
