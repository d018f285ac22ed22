use rpi_blinkers::gpio::{
    outputs_20_21, outputs_20_to_22, select_output, set_clear_register, GPCLR0, GPSET0,
};
use rpi_blinkers::command::write_to;
use rpi_blinkers::register::GpioRegister;
use rpi_blinkers::timer::{
    basic_timer_irq_pending, elapsed_ticks, timer_bit_in_state, timer_irq_raised,
};
use rpi_blinkers::watchdog::{remaining_time, reset_control_read, start, stop};

#[test]
fn gpio_register_keeps_its_address() {
    let r = GpioRegister::new(0x3F00_B400);
    assert_eq!(r.address, 0x3F00_B400);
}

#[test]
fn peripheral_space_check() {
    assert!(GpioRegister::new(0x3F20_001C).in_peripheral_space());
    assert!(GpioRegister::new(0x3F10_0024).in_peripheral_space());
    assert!(!GpioRegister::new(0x2020_001C).in_peripheral_space());
    assert!(!GpioRegister::new(0).in_peripheral_space());
}

#[test]
fn select_output_sets_one_slot() {
    // pin 35 lives in slot 5 of GPFSEL3
    assert_eq!(select_output(0, 5), 1 << 15);
    assert_eq!(select_output(0xFFFF_FFFF, 5), 0xFFFC_FFFF);
    // pin 47 lives in slot 7 of GPFSEL4
    assert_eq!(select_output(0x0000_0000, 7), 1 << 21);
    assert_eq!(select_output(0x00E0_0000, 7), 0x0020_0000);
}

#[test]
fn select_output_keeps_other_slots() {
    let v = 0x2A5A_5A5A_u32;
    let r = select_output(v, 3);
    for slot in 0..10u32 {
        let got = (r >> (3 * slot)) & 7;
        if slot == 3 {
            assert_eq!(got, 1);
        } else {
            assert_eq!(got, (v >> (3 * slot)) & 7);
        }
    }
    assert_eq!(r >> 30, v >> 30);
}

#[test]
fn outputs_for_pins_20_to_22() {
    assert_eq!(outputs_20_to_22(0), 0x49);
    assert_eq!(outputs_20_to_22(0xFFFF_FFFF), 0xFFFF_FE49);
    assert_eq!(
        outputs_20_to_22(0x1234_5678),
        select_output(select_output(select_output(0x1234_5678, 0), 1), 2)
    );
}

#[test]
fn outputs_for_pins_20_21() {
    assert_eq!(outputs_20_21(0), 0b1001);
    assert_eq!(outputs_20_21(0xFFFF_FFFF), 0xFFFF_FFC9);
    assert_eq!(
        outputs_20_21(0x8765_4321),
        select_output(select_output(0x8765_4321, 0), 1)
    );
}

#[test]
fn set_or_clear_register() {
    assert_eq!(set_clear_register(true), GPSET0);
    assert_eq!(set_clear_register(false), GPCLR0);
}

#[test]
fn timer_bit_state() {
    assert!(timer_bit_in_state(0x0008_0000, 0x0008_0000, 0x0008_0000));
    assert!(!timer_bit_in_state(0x0007_FFFF, 0x0008_0000, 0x0008_0000));
    assert!(timer_bit_in_state(0xFFF7_FFFF, 0x0008_0000, 0));
    assert!(!timer_bit_in_state(0xFFFF_FFFF, 0x0008_0000, 0));
}

#[test]
fn ticks_across_wraparound() {
    assert_eq!(elapsed_ticks(10, 3), 7);
    assert_eq!(elapsed_ticks(5, 0xFFFF_FFFE), 7);
    let last = 0xFFFF_0000_u32;
    assert_eq!(elapsed_ticks(last.wrapping_add(400_000), last), 400_000);
}

#[test]
fn interrupt_flags() {
    assert!(timer_irq_raised(1));
    assert!(timer_irq_raised(0x8000_0000));
    assert!(!timer_irq_raised(0));
    assert!(basic_timer_irq_pending(1));
    assert!(basic_timer_irq_pending(3));
    assert!(!basic_timer_irq_pending(2));
    assert!(!basic_timer_irq_pending(0));
}

#[test]
fn watchdog_start_values() {
    assert_eq!(
        start(0x000F_FFFF, 0),
        vec![write_to(0x3F10_0024, 0x5A0F_FFFF), write_to(0x3F10_001C, 0x5A00_0020)]
    );
    assert_eq!(
        start(0x0123_4567, 0xFFFF_FFFF),
        vec![write_to(0x3F10_0024, 0x5A03_4567), write_to(0x3F10_001C, 0xFFFF_FFEF)]
    );
    assert_eq!(
        start(0, 0x0000_0010),
        vec![write_to(0x3F10_0024, 0x5A00_0000), write_to(0x3F10_001C, 0x5A00_0020)]
    );
}

#[test]
fn watchdog_stop_value() {
    assert_eq!(stop(), write_to(0x3F10_001C, 0x5A00_0102));
}

#[test]
fn watchdog_remaining_time() {
    assert_eq!(remaining_time(0x5A0F_FFFF), 0x000F_FFFF);
    assert_eq!(remaining_time(0xFFF6_7696), 0x0006_7696);
    assert_eq!(remaining_time(0), 0);
}

#[test]
fn watchdog_reads_back_its_timeout() {
    for &(timeout, reset) in &[(0x000F_FFFF_u32, 0_u32), (0x0123_4567, 0xFFFF_FFFF), (7, 0x30)] {
        assert_eq!(remaining_time(stored_value(start(timeout, reset)[0])), timeout & 0x000F_FFFF);
    }
}

#[test]
fn watchdog_reset_control_fields() {
    let reset = 0x1234_5678_u32;
    let rstc = stored_value(start(0, reset)[1]);
    assert_eq!(rstc & 0x5A00_0000, 0x5A00_0000);
    assert_eq!(rstc & 0x30, 0x20);
    assert_eq!(rstc & !0x5A00_0030, reset & !0x5A00_0030);
}

fn stored_value(c: rpi_blinkers::command::Command) -> u32 {
    match c {
        rpi_blinkers::command::Command::Write { value, .. } => value,
        other => panic!("expected a store, got {:?}", other),
    }
}

#[test]
fn watchdog_start_reads_then_stores_in_order() {
    assert_eq!(reset_control_read(), rpi_blinkers::command::read_from(0x3F10_001C));
    assert_eq!(
        start(0x1234_5678, 0x0000_0133),
        vec![write_to(0x3F10_0024, 0x5A04_5678), write_to(0x3F10_001C, 0x5A00_0123)]
    );
}
