use rpi_blinkers::blinker01::{Blinker01, Blinker01Step};
use rpi_blinkers::blinker02::{Blinker02, Blinker02Step};
use rpi_blinkers::blinker03::{poll_timeout, Blinker03, Blinker03Step};
use rpi_blinkers::blinker04::{Blinker04, Blinker04Step};
use rpi_blinkers::blinker05::{Blinker05, Blinker05Step, WaitSource};
use rpi_blinkers::blinker06::{Blinker06, Blinker06Step};
use rpi_blinkers::command::{read_from, write_to, Command, Program};
use rpi_blinkers::display::{Display, DisplayStep};

fn run<P: Program>(m: &mut P, inputs: &[u32]) -> Vec<Command> {
    let mut out = Vec::new();
    for &v in inputs {
        out.push(m.command());
        m.advance(v);
    }
    out
}

fn w(address: usize, value: u32) -> Command {
    write_to(address, value)
}

fn r(address: usize) -> Command {
    read_from(address)
}

#[test]
fn blinker01_setup_and_period() {
    let mut m = Blinker01::new();
    let cmds = run(&mut m, &[0xFFFF_FFFF, 0, 0x0000_0000, 0]);
    assert_eq!(
        cmds,
        vec![
            r(0x3F20_000C),
            w(0x3F20_000C, 0xFFFC_FFFF),
            r(0x3F20_0010),
            w(0x3F20_0010, 0x0020_0000),
        ]
    );
    assert_eq!(m.step, Blinker01Step::SetPin47);
    let period = vec![
        w(0x3F20_0020, 1 << 15),
        w(0x3F20_002C, 1 << 3),
        Command::Sleep { iterations: 100_000 },
        w(0x3F20_002C, 1 << 15),
        w(0x3F20_0020, 1 << 3),
        Command::Sleep { iterations: 100_000 },
    ];
    assert_eq!(run(&mut m, &[0; 6]), period);
    assert_eq!(run(&mut m, &[9; 6]), period);
    assert_eq!(m.step, Blinker01Step::SetPin47);
}

#[test]
fn blinker02_waits_on_the_timer_bit() {
    let mut m = Blinker02::new();
    let cmds = run(&mut m, &[0xFFFF_FFFF, 0]);
    assert_eq!(cmds, vec![r(0x3F20_0008), w(0x3F20_0008, 0xFFFF_FFC9)]);
    assert_eq!(run(&mut m, &[0, 0]), vec![w(0x3F20_001C, 1 << 20), w(0x3F20_0028, 1 << 21)]);
    assert_eq!(m.step, Blinker02Step::WaitTimerHigh);
    // the bit is still clear: keep reading the timer
    assert_eq!(run(&mut m, &[0x0007_FFFF, 0]), vec![r(0x3F00_3004), r(0x3F00_3004)]);
    assert_eq!(m.step, Blinker02Step::WaitTimerHigh);
    assert_eq!(run(&mut m, &[0x0008_0000]), vec![r(0x3F00_3004)]);
    assert_eq!(
        run(&mut m, &[0, 0, 0xFFFF_FFFF, 0x0000_0001]),
        vec![w(0x3F20_0028, 1 << 20), w(0x3F20_001C, 1 << 21), r(0x3F00_3004), r(0x3F00_3004)]
    );
    assert_eq!(m.step, Blinker02Step::SetPin20);
}

#[test]
fn blinker03_counts_timeouts() {
    let mut m = Blinker03::new();
    let cmds = run(&mut m, &[0, 0, 0, 0xFFFF_0000]);
    assert_eq!(
        cmds,
        vec![w(0x3F00_B408, 0x00F9_0200), r(0x3F20_0008), w(0x3F20_0008, 0x49), r(0x3F00_B420)]
    );
    assert_eq!(m.timer_state, 0xFFFF_0000);
    assert_eq!(
        run(&mut m, &[0, 0, 0]),
        vec![w(0x3F20_001C, 1 << 20), w(0x3F20_0028, 1 << 21), w(0x3F20_001C, 1 << 22)]
    );
    // 399_999 ticks later: not yet
    let cmds = run(&mut m, &[0xFFFF_0000_u32.wrapping_add(399_999)]);
    assert_eq!(cmds, vec![r(0x3F00_B420)]);
    assert_eq!(m.step, Blinker03Step::WaitLit);
    // across the wrap-around, 400_000 ticks: the wait ends
    run(&mut m, &[0xFFFF_0000_u32.wrapping_add(400_000)]);
    assert_eq!(m.step, Blinker03Step::ClearPin20);
    assert_eq!(m.timer_state, 0xFFFF_0000_u32.wrapping_add(400_000));
    let next = m.timer_state.wrapping_add(400_000);
    assert_eq!(
        run(&mut m, &[0, 0, next]),
        vec![w(0x3F20_0028, 1 << 20), w(0x3F20_001C, 1 << 21), r(0x3F00_B420)]
    );
    assert_eq!(m.step, Blinker03Step::SetPin20);
    assert_eq!(m.timer_state, next);
    // the second period clears pin 22
    assert_eq!(run(&mut m, &[0, 0, 0])[2], w(0x3F20_0028, 1 << 22));
}

#[test]
fn blinker03_poll_timeout() {
    assert_eq!(poll_timeout(100, 400_000, 400_099), None);
    assert_eq!(poll_timeout(100, 400_000, 400_100), Some(400_100));
    assert_eq!(poll_timeout(0xFFFF_FFFF, 400_000, 399_999), Some(399_999));
    assert_eq!(poll_timeout(0xFFFF_FFFF, 400_000, 399_998), None);
    // the new state advances by the program's timeout, whatever was compared
    assert_eq!(poll_timeout(0, 10, 10), Some(400_000));
}

#[test]
fn blinker04_period() {
    let mut m = Blinker04::new();
    let cmds = run(&mut m, &[0; 8]);
    assert_eq!(
        cmds,
        vec![
            w(0x3F00_B408, 0x003E_0000),
            w(0x3F00_B400, 499_999),
            w(0x3F00_B418, 499_999),
            w(0x3F00_B41C, 0xF9),
            w(0x3F00_B40C, 0),
            w(0x3F00_B408, 0x003E_0082),
            r(0x3F20_0008),
            w(0x3F20_0008, 0x49),
        ]
    );
    assert_eq!(m.step, Blinker04Step::WriteBlue);
    let cmds = run(&mut m, &[0, 0, 0, 0, 0, 1, 0, 0, 0, 7, 0]);
    assert_eq!(
        cmds,
        vec![
            w(0x3F20_001C, 1 << 22),
            w(0x3F20_001C, 1 << 20),
            w(0x3F20_0028, 1 << 21),
            r(0x3F00_B410),
            r(0x3F00_B410),
            r(0x3F00_B410),
            w(0x3F00_B40C, 0),
            w(0x3F20_0028, 1 << 20),
            w(0x3F20_001C, 1 << 21),
            r(0x3F00_B410),
            w(0x3F00_B40C, 0),
        ]
    );
    assert_eq!(m.step, Blinker04Step::WriteBlue);
    assert_eq!(m.command(), w(0x3F20_0028, 1 << 22));
}

#[test]
fn blinker05_whole_run() {
    let mut m = Blinker05::new();
    let cmds = run(&mut m, &[1; 28]);
    assert_eq!(cmds[0], w(0x3F00_B224, 1));
    assert_eq!(cmds[1], w(0x3F00_B400, 1_999_999));
    assert_eq!(cmds[5], w(0x3F00_B408, 0x003E_00A2));
    assert_eq!(cmds[10], r(0x3F00_B414));
    assert_eq!(cmds[19], w(0x3F00_B40C, 0));
    assert_eq!(cmds[26], w(0x3F00_B40C, 0));
    assert_eq!(cmds[24], w(0x3F00_B400, 999_999));
    assert_eq!(cmds[27], w(0x3F00_B218, 1));
    assert_eq!(m.step, Blinker05Step::SetPin20);
    assert_eq!(m.source, WaitSource::BasicPending);
    let cmds = run(&mut m, &[1; 27]);
    assert_eq!(cmds[2], r(0x3F00_B200));
    assert_eq!(cmds[24], w(0x3F00_B400, 499_999));
    assert_eq!(cmds[25], w(0x3F00_B418, 499_999));
    assert_eq!(cmds[26], Command::EnableIrq);
    assert_eq!(m.step, Blinker05Step::Halt);
    assert_eq!(run(&mut m, &[5; 3]), vec![Command::Halt; 3]);
}

#[test]
fn blinker05_pending_wait_needs_bit_0() {
    let mut m = Blinker05::new();
    run(&mut m, &[1; 28]);
    run(&mut m, &[0, 0]);
    assert_eq!(m.step, Blinker05Step::WaitLit);
    run(&mut m, &[2, 0xFFFF_FFFE]);
    assert_eq!(m.step, Blinker05Step::WaitLit);
    run(&mut m, &[3]);
    assert_eq!(m.step, Blinker05Step::AckLit);
}

#[test]
fn blinker06_arms_watchdog_and_lights_pin_22() {
    let mut m = Blinker06::new();
    let cmds = run(&mut m, &[0; 9]);
    assert_eq!(cmds[0], w(0x3F00_B400, 499_999));
    assert_eq!(cmds[5], w(0x3F00_B218, 1));
    assert_eq!(cmds[7], w(0x3F20_0008, 0x49));
    assert_eq!(cmds[8], Command::EnableIrq);
    let cmds = run(&mut m, &[0x0000_0102, 0, 0]);
    assert_eq!(
        cmds,
        vec![r(0x3F10_001C), w(0x3F10_0024, 0x5A0F_FFFF), w(0x3F10_001C, 0x5A00_0122)]
    );
    for c in &cmds {
        if let Command::Read { register } | Command::Write { register, .. } = c {
            assert!(register.in_peripheral_space());
        }
    }
    assert_eq!(m.step, Blinker06Step::PollWatchdog);
    run(&mut m, &[0x5A0F_FFFF, 0x0006_7697]);
    assert_eq!(m.step, Blinker06Step::PollWatchdog);
    run(&mut m, &[0x5A06_7696]);
    assert_eq!(m.step, Blinker06Step::LightPin22);
    assert_eq!(run(&mut m, &[0, 0]), vec![w(0x3F20_001C, 1 << 22), Command::Halt]);
}

#[test]
fn display_uses_pin_commands() {
    let mut m = Display::new();
    let cmds = run(&mut m, &[0; 10]);
    assert_eq!(
        &cmds[6..],
        &[
            Command::SelectOutput { pin: 20 },
            Command::SelectOutput { pin: 21 },
            Command::SelectOutput { pin: 22 },
            Command::EnableIrq,
        ]
    );
    run(&mut m, &[0xFFFF_FFFF, 0, 0]);
    assert_eq!(m.step, DisplayStep::PollWatchdog);
    run(&mut m, &[0x0006_7697]);
    assert_eq!(m.step, DisplayStep::PollWatchdog);
    run(&mut m, &[0x0006_7696]);
    assert_eq!(run(&mut m, &[0, 0]), vec![Command::SetPin { pin: 22 }, Command::Halt]);
}

#[test]
fn blinker05_any_reads_follow_the_same_run() {
    // the run when every wait sees the timer expired at once
    let mut fast = Blinker05::new();
    let mut fast_steps = Vec::new();
    for _ in 0..56 {
        fast_steps.push((fast.step, fast.source, fast.round));
        fast.advance(1);
    }
    // reads that often leave the timer unexpired: each command either repeats
    // (a wait that goes on) or is the next one of the fast run
    let mut m = Blinker05::new();
    let mut moves = vec![(m.step, m.source, m.round)];
    for i in 0..400u32 {
        let before = m;
        m.advance(if i % 5 == 0 { 1 } else { i & 2 });
        if m != before {
            moves.push((m.step, m.source, m.round));
        } else {
            assert!(matches!(
                m.step,
                Blinker05Step::WaitLit | Blinker05Step::WaitDark | Blinker05Step::Halt
            ));
        }
    }
    assert_eq!(moves, fast_steps);
    assert_eq!(m.step, Blinker05Step::Halt);
}
