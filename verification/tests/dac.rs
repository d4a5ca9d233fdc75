use hal_mik32::clock::Hertz;
use hal_mik32::dac::{
    calculate_divider, cfg_configure, cfg_disable, cfg_enable, cfg_set_divider, clock_from_divider,
    dma_write_config, enabled_check, flush_timeout_result, max_frequency, try_write_check,
    validate_divider, CalibrationCoefficient, CalibrationOutOfRange, Channel, Code, Config,
    DmaWriteError, DmaWriteProgress, Error, ExternalReference, FlushError, FrequencyError,
    InternalReference, ReferenceSource, ValueOutOfRange, CALIBRATED_REFERENCE_BITS,
    CFG_EXTERNAL_REFERENCE, CFG_EXTERNAL_REFERENCE_PIN, DEFAULT_DIVIDER, MAX_CODE,
};
use hal_mik32::dac::{dma_write_check, enable_result, validate_dma_buffer, InitError};
use hal_mik32::dma::Error as DmaError;
use hal_mik32::epic::Interrupt;
use hal_mik32::gpio::{Analog, Pin};
use hal_mik32::nb::NbError;

#[test]
fn code_checks_12_bit_range() {
    assert_eq!(Code::new(0), Some(Code::zero()));
    assert_eq!(Code::new(MAX_CODE), Some(Code::max()));
    assert_eq!(Code::new(MAX_CODE + 1), None);
    assert_eq!(Code::saturating(u16::MAX), Code::max());
}

#[test]
fn calibration_coefficient_checks_four_bit_range() {
    assert_eq!(CalibrationCoefficient::new(0).map(CalibrationCoefficient::get), Some(0));
    assert_eq!(CalibrationCoefficient::new(0x0f).map(CalibrationCoefficient::get), Some(0x0f));
    assert_eq!(CalibrationCoefficient::new(0x10), None);
}

#[test]
fn conversions_check_ranges() {
    assert_eq!(Code::try_from(5u16).map(Code::get), Ok(5));
    assert_eq!(Code::try_from(0x1000u16), Err(ValueOutOfRange(0x1000)));
    assert_eq!(Code::from(200u8).get(), 200);
    assert_eq!(u16::from(Code::saturating(12)), 12);
    assert_eq!(CalibrationCoefficient::try_from(0x20u8), Err(CalibrationOutOfRange(0x20)));
    assert_eq!(CalibrationCoefficient::default().get(), 8);
    assert_eq!(Code::saturating(17).get(), 17);
}

#[test]
fn reference_bits_match_the_hardware_mux() {
    assert_eq!(InternalReference::CONFIG_BITS, 0);
    assert_eq!(CALIBRATED_REFERENCE_BITS, CFG_EXTERNAL_REFERENCE);
    assert_eq!(
        ExternalReference::CONFIG_BITS,
        CFG_EXTERNAL_REFERENCE | CFG_EXTERNAL_REFERENCE_PIN
    );
    assert_eq!(
        <&ExternalReference as ReferenceSource>::CONFIG_BITS,
        CFG_EXTERNAL_REFERENCE | CFG_EXTERNAL_REFERENCE_PIN
    );
}

#[test]
fn external_reference_owns_its_pin() {
    let reference = ExternalReference::new(Pin::<1, 11, Analog>::new());
    let pin = reference.release();
    assert_eq!((pin.port(), pin.number()), (1, 11));
}

#[test]
fn dma_requests_match_the_hardware_map() {
    assert_eq!(Channel::Dac0.dma_request(), 10);
    assert_eq!(Channel::Dac1.dma_request(), 11);
    assert_eq!(Channel::Dac0.interrupt(), Interrupt::Dac0);
    assert_eq!(Channel::Dac1.interrupt(), Interrupt::Dac1);
}

#[test]
fn default_divider_keeps_a_32_mhz_input_at_1_mhz() {
    let config = Config::default();
    assert_eq!(config.divider, DEFAULT_DIVIDER);
    assert_eq!(32_000_000 / (u32::from(config.divider) + 1), 1_000_000);
}

#[test]
fn frequency_selects_a_rate_not_above_the_request() {
    let exact = Config::default()
        .frequency(Hertz::mhz(32), Hertz::mhz(1))
        .unwrap();
    assert_eq!(exact.divider, 31);
    assert_eq!(exact.validate_frequency(Hertz::mhz(32)), Ok(Hertz::mhz(1)));

    let rounded = Config::default()
        .frequency(Hertz::mhz(32), Hertz::khz(900))
        .unwrap();
    assert_eq!(rounded.divider, 35);
    assert_eq!(
        rounded.validate_frequency(Hertz::mhz(32)),
        Ok(Hertz(888_888))
    );
}

#[test]
fn frequency_rejects_rates_outside_the_supported_range() {
    assert_eq!(
        Config::default().frequency(Hertz::mhz(32), Hertz(1_000_001)),
        Err(FrequencyError::FrequencyTooHigh {
            requested: Hertz(1_000_001),
            maximum: max_frequency(),
        })
    );
    assert_eq!(
        Config::default().frequency(Hertz::mhz(32), Hertz(124_999)),
        Err(FrequencyError::FrequencyTooLow {
            requested: Hertz(124_999),
            minimum: Hertz::khz(125),
        })
    );
    assert_eq!(
        Config::default().frequency(Hertz(0), Hertz::khz(1)),
        Err(FrequencyError::InputClockZero)
    );
}

#[test]
fn zero_rate_is_too_low_and_raw_dividers_are_checked() {
    assert_eq!(
        calculate_divider(Hertz::mhz(32), Hertz(0)),
        Err(FrequencyError::FrequencyTooLow { requested: Hertz(0), minimum: Hertz(125_000) })
    );
    assert_eq!(calculate_divider(Hertz(1_000_000), Hertz(1_000_000)), Ok(0));
    assert_eq!(clock_from_divider(Hertz::mhz(32), 3), Hertz(8_000_000));
    assert_eq!(
        validate_divider(Hertz::mhz(32), 3),
        Err(FrequencyError::FrequencyTooHigh { requested: Hertz(8_000_000), maximum: Hertz(1_000_000) })
    );
    assert_eq!(validate_divider(Hertz(0), 3), Err(FrequencyError::InputClockZero));
    let config = Config::default().divider(63).initial_value(Code::max()).ready_timeout(9);
    assert_eq!((config.divider, config.initial_value, config.ready_timeout), (63, Code::max(), 9));
}

#[test]
fn writes_are_rejected_while_disabled() {
    assert_eq!(try_write_check(false, true), Err(NbError::Other(Error::Disabled)));
    assert_eq!(enabled_check(false), Err(Error::Disabled));
    assert_eq!(try_write_check(true, false), Err(NbError::WouldBlock));
    assert_eq!(try_write_check(true, true), Ok(()));
    assert_eq!(flush_timeout_result(false, true), Err(FlushError::Disabled));
    assert_eq!(flush_timeout_result(true, false), Err(FlushError::Timeout));
    assert_eq!(flush_timeout_result(true, true), Ok(()));
}

#[test]
fn enable_rolls_back_when_ready_times_out() {
    let enabled = cfg_enable(31 << 2);
    assert_eq!(enabled & 0b11, 0b11);
    let rolled_back = cfg_disable(enabled);
    assert_eq!(rolled_back & 1, 0);
    assert_eq!(rolled_back, 31 << 2);
}

#[test]
fn release_disables_the_channel() {
    assert_eq!(cfg_disable(0x0fff) & 0b11, 0);
    assert_eq!(cfg_disable(0x0fff), 0x0ffc);
}

#[test]
fn divider_field_is_replaced() {
    assert_eq!(cfg_set_divider(0xffff_ffff, 0), 0xffff_fc03);
    assert_eq!(cfg_set_divider(0, 35), 35 << 2);
    assert_eq!(cfg_configure(0b11, 31, CFG_EXTERNAL_REFERENCE), 0b11 | (31 << 2) | (1 << 10));
}

#[test]
fn dma_config_uses_halfwords_and_the_channel_request() {
    assert_eq!(
        dma_write_config(Channel::Dac0.dma_request()),
        (1 << 3) | (1 << 5) | (1 << 7) | (1 << 9) | (1 << 11) | (1 << 14) | (10 << 21) | (1 << 26)
    );
    assert_eq!(
        dma_write_config(Channel::Dac1.dma_request()),
        (1 << 3) | (1 << 5) | (1 << 7) | (1 << 9) | (1 << 11) | (1 << 14) | (11 << 21) | (1 << 26)
    );
}

#[test]
fn dma_buffer_is_validated_before_transfer() {
    assert_eq!(validate_dma_buffer(&[]), Err(DmaWriteError::EmptyBuffer));
    assert_eq!(validate_dma_buffer(&[0, MAX_CODE]), Ok(4));
    assert_eq!(
        validate_dma_buffer(&[0, MAX_CODE + 1, 1]),
        Err(DmaWriteError::ValueOutOfRange {
            index: 1,
            value: MAX_CODE + 1,
        })
    );
}

#[test]
fn dma_errors_map_to_write_errors() {
    assert_eq!(DmaWriteError::from(DmaError::EmptyBuffer), DmaWriteError::EmptyBuffer);
    assert_eq!(DmaWriteError::from(DmaError::TransferTooLong), DmaWriteError::TransferTooLong);
    assert_eq!(DmaWriteError::from(DmaError::Timeout), DmaWriteError::DmaTimeout);
    assert_eq!(DmaWriteError::from(DmaError::Bus), DmaWriteError::Bus);
    assert_eq!(DmaWriteError::from(DmaError::InvalidChannel), DmaWriteError::InvalidChannel);
}

#[test]
fn dma_progress_waits_for_dma_then_the_dac() {
    let mut progress = DmaWriteProgress::new();
    assert!(progress.needs_dma_poll());
    assert_eq!(progress.timeout_error(), DmaWriteError::DmaTimeout);
    assert_eq!(progress.record_dma_poll(Ok(false)), Ok(()));
    assert!(!progress.is_done(true));
    assert_eq!(progress.record_dma_poll(Ok(true)), Ok(()));
    assert!(!progress.needs_dma_poll());
    assert!(!progress.is_done(false));
    assert!(progress.is_done(true));
    assert_eq!(progress.timeout_error(), DmaWriteError::ReadyTimeout);
    let mut failing = DmaWriteProgress::new();
    assert_eq!(failing.record_dma_poll(Err(DmaError::Bus)), Err(DmaWriteError::Bus));
}

#[test]
fn a_dma_write_checks_enable_before_the_buffer() {
    assert_eq!(dma_write_check(false, &[]), Err(DmaWriteError::Disabled));
    assert_eq!(dma_write_check(true, &[]), Err(DmaWriteError::EmptyBuffer));
    assert_eq!(
        dma_write_check(true, &[1, 0x1000]),
        Err(DmaWriteError::ValueOutOfRange { index: 1, value: 0x1000 })
    );
    assert_eq!(dma_write_check(true, &[1, 2, 3]), Ok(6));
}

#[test]
fn enabling_fails_when_not_ready_in_time() {
    assert_eq!(enable_result(true), Ok(()));
    assert_eq!(enable_result(false), Err(InitError::ReadyTimeout));
}
