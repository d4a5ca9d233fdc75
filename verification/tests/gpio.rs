use hal_mik32::gpio::port_0::Pin09;
use hal_mik32::gpio::{
    mode_plan, mux_clear, mux_update, pad_field_update, pin_mask, port, DriveStrength,
    InterruptLine, InterruptMode, InterruptPin, LineConfig, ModePlan, Pin, PullUp, Port,
};

#[test]
fn interrupt_modes_program_three_registers() {
    assert_eq!(mode_plan(InterruptMode::Low), ModePlan { level_high: false, edge: false, any_edge: false });
    assert_eq!(mode_plan(InterruptMode::High), ModePlan { level_high: true, edge: false, any_edge: false });
    assert_eq!(mode_plan(InterruptMode::Falling), ModePlan { level_high: false, edge: true, any_edge: false });
    assert_eq!(mode_plan(InterruptMode::Rising), ModePlan { level_high: true, edge: true, any_edge: false });
    assert_eq!(mode_plan(InterruptMode::Change), ModePlan { level_high: false, edge: true, any_edge: true });
    assert_eq!(InterruptMode::Change.bits(), 6);
}

#[test]
fn line_routing_replaces_one_nibble() {
    assert_eq!(LineConfig::Line0Port0_8.line(), InterruptLine::Line0);
    assert_eq!(LineConfig::Line0Port0_8.mux(), 1);
    assert_eq!(LineConfig::Line7Port2_3.bits(), 121);
    assert_eq!(mux_update(0xffff_ffff, LineConfig::Line0Port0_8), 0xffff_fff1);
    assert_eq!(mux_update(0, LineConfig::Line7Port2_3), 0x9000_0000);
    assert_eq!(mux_update(0x1234_5678, LineConfig::Line7Port2_3), 0x9234_5678);
    assert_eq!(mux_clear(0x1234_5678, InterruptLine::Line2), 0x1234_5078);
    assert_eq!(InterruptLine::Line5.mask(), 1 << 5);
    assert_eq!(InterruptLine::Line5.mux_shift(), 20);
}

#[test]
fn pad_fields_are_two_bits_wide() {
    assert_eq!(pad_field_update(0xffff_ffff, 3, 0), 0xffff_ff3f);
    assert_eq!(pad_field_update(0, 15, DriveStrength::Ma8.bits()), 0x8000_0000);
    assert_eq!(pin_mask(9), 1 << 9);
    assert_eq!(port(1), Some(Port::Port1));
    assert_eq!(port(3), None);
}

#[test]
fn interrupt_pin_keeps_pin_and_mode() {
    let pin: Pin<0, 9, PullUp> = Pin::new();
    let irq = pin.into_interrupt_pin::<1>(InterruptMode::Rising);
    assert_eq!(irq.interrupt_mode(), InterruptMode::Rising);
    assert_eq!(irq.line(), InterruptLine::Line1);
    assert_eq!(irq.line_config().line(), InterruptLine::Line1);
    let pin = irq.release();
    assert_eq!((pin.port(), pin.number()), (0, 9));
    let led: Pin09 = Pin::new();
    let irq = InterruptPin::<Pin09, 1>::new(led, InterruptMode::Low);
    assert!(InterruptPin::<Pin09, 1>::is_low_from(false));
    assert_eq!(irq.interrupt_mode(), InterruptMode::Low);
}

#[test]
fn releasing_a_line_undoes_its_routing() {
    let current = 0x1234_5678;
    let config = LineConfig::Line3Port1_11;
    let routed = mux_update(current, config);
    assert_eq!(routed, 0x1234_3678);
    assert_eq!(mux_clear(routed, config.line()), mux_clear(current, InterruptLine::Line3));
}

#[test]
fn a_pin_on_two_lines_reports_the_chosen_one() {
    let pin: Pin<0, 4, PullUp> = Pin::new();
    let irq = pin.into_interrupt_pin::<0>(InterruptMode::Rising);
    assert_eq!(irq.line(), InterruptLine::Line0);
    assert_eq!(irq.line_config(), LineConfig::Line0Port0_4);
    let pin = irq.release();
    let irq = pin.into_interrupt_pin::<4>(InterruptMode::Falling);
    assert_eq!(irq.line(), InterruptLine::Line4);
    assert_eq!(irq.line_config().line(), InterruptLine::Line4);
}

#[test]
fn line_state_bits_are_read_per_line() {
    assert!(InterruptLine::Line3.is_set_in(0b0000_1000));
    assert!(!InterruptLine::Line3.is_set_in(0b1111_0111));
    assert!(InterruptLine::Line7.is_set_in(0x80));
}
