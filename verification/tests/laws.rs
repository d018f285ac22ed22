use rpi_blinkers::blinker01::Blinker01;
use rpi_blinkers::blinker02::Blinker02;
use rpi_blinkers::blinker03::Blinker03;
use rpi_blinkers::blinker04::Blinker04;
use rpi_blinkers::blinker05::Blinker05;
use rpi_blinkers::blinker06::Blinker06;
use rpi_blinkers::command::{write_to, Command, Program};
use rpi_blinkers::display::Display;
use rpi_blinkers::interrupt::IrqStep;
use rpi_blinkers::gpio::{
    GPCLR0, GPCLR1, GPFSEL2, GPFSEL3, GPFSEL4, GPIO20, GPIO21, GPIO22, GPIO35, GPIO47, GPSET0,
    GPSET1,
};
use rpi_blinkers::watchdog::{remaining_time, start};

fn all_peripheral<P: Program>(mut m: P, reads: &[u32]) {
    for &v in reads {
        match m.command() {
            Command::Read { register } | Command::Write { register, .. } => {
                assert!(register.in_peripheral_space(), "{:#x}", register.address)
            }
            _ => {}
        }
        m.advance(v);
    }
}

#[test]
fn every_program_stays_in_peripheral_space() {
    let reads: Vec<u32> = (0..200u32).map(|i| if i % 3 == 0 { 0 } else { i.wrapping_mul(0x9E37_79B9) }).collect();
    all_peripheral(Blinker01::new(), &reads);
    all_peripheral(Blinker02::new(), &reads);
    all_peripheral(Blinker03::new(), &reads);
    all_peripheral(Blinker04::new(), &reads);
    all_peripheral(Blinker05::new(), &reads);
    all_peripheral(Blinker06::new(), &reads);
    all_peripheral(Display::new(), &reads);
    all_peripheral(Blinker05::new(), &[1; 60]);
}

#[test]
fn pin_layout_constants() {
    assert_eq!(GPIO20, 1 << 20);
    assert_eq!(GPIO21, 1 << 21);
    assert_eq!(GPIO22, 1 << 22);
    assert_eq!(GPIO35, 1 << (35 - 32));
    assert_eq!(GPIO47, 1 << (47 - 32));
    assert_eq!(GPSET1, GPSET0 + 4);
    assert_eq!(GPCLR1, GPCLR0 + 4);
    assert_eq!(GPFSEL2, 0x3F20_0000 + 4 * 2);
    assert_eq!(GPFSEL3, 0x3F20_0000 + 4 * 3);
    assert_eq!(GPFSEL4, 0x3F20_0000 + 4 * 4);
}

fn pin_store(c: &Command) -> Command {
    match *c {
        Command::SetPin { pin } => write_to(GPSET0 + 4 * (pin as usize / 32), 1 << (pin % 32)),
        Command::ClearPin { pin } => write_to(GPCLR0 + 4 * (pin as usize / 32), 1 << (pin % 32)),
        other => other,
    }
}

#[test]
fn display_irq_is_blinker06_irq_through_the_pin_layout() {
    for &c in &[0u32, 1, 2, 7, 0xFFFF_FFFE, u32::MAX] {
        let pins: Vec<IrqStep> = rpi_blinkers::display::irq_response(c)
            .iter()
            .map(|s| match s {
                IrqStep::Issue(cmd) => IrqStep::Issue(pin_store(cmd)),
                other => *other,
            })
            .collect();
        assert_eq!(pins, rpi_blinkers::blinker06::irq_response(c));
    }
}

#[test]
fn freshly_armed_watchdog_is_not_low() {
    let armed = match start(0x000F_FFFF, 0x1234_5678)[0] {
        Command::Write { value, .. } => value,
        other => panic!("expected a store, got {:?}", other),
    };
    assert_eq!(remaining_time(armed), 0x000F_FFFF);
    assert!(remaining_time(armed) >= 0x67697);
}

#[test]
fn blue_register_alternates_each_period() {
    let mut m = Blinker04::new();
    for _ in 0..8 {
        m.advance(0);
    }
    let mut seen = Vec::new();
    for _ in 0..4 {
        seen.push(m.blue_set);
        for _ in 0..9 {
            m.advance(1);
        }
    }
    assert_eq!(seen, vec![true, false, true, false]);

    let mut m = Blinker03::new();
    for v in [0, 0, 0, 0] {
        m.advance(v);
    }
    let mut seen = Vec::new();
    for _ in 0..3 {
        seen.push(m.blue_set);
        let target = m.timer_state.wrapping_add(400_000);
        for v in [0, 0, 0, target, 0, 0, target.wrapping_add(400_000)] {
            m.advance(v);
        }
    }
    assert_eq!(seen, vec![true, false, true]);
}

#[test]
fn blinkers_never_ask_the_pin_driver() {
    fn no_pins<P: Program>(mut m: P, reads: &[u32]) {
        for &v in reads {
            assert!(!matches!(
                m.command(),
                Command::SetPin { .. } | Command::ClearPin { .. } | Command::SelectOutput { .. }
            ));
            m.advance(v);
        }
    }
    let reads: Vec<u32> = (0..120u32).map(|i| i % 2).collect();
    no_pins(Blinker01::new(), &reads);
    no_pins(Blinker02::new(), &reads);
    no_pins(Blinker03::new(), &reads);
    no_pins(Blinker04::new(), &reads);
    no_pins(Blinker05::new(), &[1; 60]);
    no_pins(Blinker06::new(), &reads);
}
