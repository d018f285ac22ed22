use rpi_blinkers::command::{write_to, Command};
use rpi_blinkers::interrupt::IrqStep;

fn w(address: usize, value: u32) -> Command {
    write_to(address, value)
}

/// Splits a handler run into its LED commands and the saved count, checking
/// that it ends with the saved count and then the timer acknowledgement.
fn split(steps: Vec<IrqStep>) -> (Vec<Command>, u32) {
    let n = steps.len();
    assert!(n >= 2);
    assert_eq!(steps[n - 1], IrqStep::Issue(w(0x3F00_B40C, 0)));
    let counter = match steps[n - 2] {
        IrqStep::SaveCounter(c) => c,
        other => panic!("expected the saved count, got {:?}", other),
    };
    let leds = steps[..n - 2]
        .iter()
        .map(|s| match *s {
            IrqStep::Issue(c) => c,
            other => panic!("expected a command, got {:?}", other),
        })
        .collect();
    (leds, counter)
}

#[test]
fn blinker05_irq_even_and_odd() {
    let steps = rpi_blinkers::blinker05::irq_response(0);
    assert_eq!(
        steps,
        vec![
            IrqStep::Issue(w(0x3F20_001C, 1 << 20)),
            IrqStep::Issue(w(0x3F20_0028, 1 << 21)),
            IrqStep::Issue(w(0x3F20_001C, 1 << 22)),
            IrqStep::SaveCounter(1),
            IrqStep::Issue(w(0x3F00_B40C, 0)),
        ]
    );
    let (leds, next) = split(rpi_blinkers::blinker05::irq_response(1));
    assert_eq!(leds, vec![w(0x3F20_0028, 1 << 20), w(0x3F20_001C, 1 << 21)]);
    assert_eq!(next, 2);
    let (leds, next) = split(rpi_blinkers::blinker05::irq_response(2));
    assert_eq!(leds[2], w(0x3F20_0028, 1 << 22));
    assert_eq!(next, 3);
}

#[test]
fn blinker05_irq_counter_wraps() {
    let (leds, next) = split(rpi_blinkers::blinker05::irq_response(u32::MAX));
    assert_eq!(next, 0);
    assert_eq!(leds, vec![w(0x3F20_0028, 1 << 20), w(0x3F20_001C, 1 << 21)]);
    let (leds, _) = split(rpi_blinkers::blinker05::irq_response(next));
    assert_eq!(leds[0], w(0x3F20_001C, 1 << 20));
}

#[test]
fn blinker05_irq_alternates_and_blue_every_other() {
    let mut counter = u32::MAX - 5;
    for _ in 0..12 {
        let (a, next_a) = split(rpi_blinkers::blinker05::irq_response(counter));
        let (b, next_b) = split(rpi_blinkers::blinker05::irq_response(next_a));
        assert_ne!(a[0], b[0]);
        if counter % 2 == 0 {
            let (c, _) = split(rpi_blinkers::blinker05::irq_response(next_b));
            assert_ne!(a[2], c[2]);
        } else {
            assert_eq!(a.len(), 2);
        }
        counter = next_a;
    }
}

#[test]
fn blinker06_irq_matches_blinker05() {
    for &c in &[0u32, 1, 2, 3, 4, 0xFFFF_FFFE, u32::MAX] {
        let (a, next) = split(rpi_blinkers::blinker06::irq_response(c));
        let (b, _) = split(rpi_blinkers::blinker05::irq_response(c));
        assert_eq!(a[..], b[..2]);
        assert_eq!(next, c.wrapping_add(1));
    }
}

#[test]
fn display_irq_pins() {
    let (leds, _) = split(rpi_blinkers::display::irq_response(0));
    assert_eq!(leds, vec![Command::SetPin { pin: 20 }, Command::ClearPin { pin: 21 }]);
    let (leds, next) = split(rpi_blinkers::display::irq_response(1));
    assert_eq!(leds, vec![Command::ClearPin { pin: 20 }, Command::SetPin { pin: 21 }]);
    assert_eq!(next, 2);
    assert_eq!(split(rpi_blinkers::display::irq_response(u32::MAX)).1, 0);
}

#[test]
fn irq_response_order() {
    let steps = rpi_blinkers::interrupt::timer_irq_response(vec![Command::Halt, Command::EnableIrq], 41);
    assert_eq!(
        steps,
        vec![
            IrqStep::Issue(Command::Halt),
            IrqStep::Issue(Command::EnableIrq),
            IrqStep::SaveCounter(42),
            IrqStep::Issue(w(0x3F00_B40C, 0)),
        ]
    );
    assert_eq!(
        rpi_blinkers::interrupt::timer_irq_response(vec![], u32::MAX),
        vec![IrqStep::SaveCounter(0), IrqStep::Issue(w(0x3F00_B40C, 0))]
    );
}
