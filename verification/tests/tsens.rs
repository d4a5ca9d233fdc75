use hal_mik32::clock::Hertz;
use hal_mik32::rcc::Clocks;
use hal_mik32::tsens::{
    calc_divider, celsius_to_value, is_celsius_convertible, is_value_convertible, measurement,
    real_clock, threshold_value, value_to_celsius,
    ClockSource, Config, Error,
};

#[test]
fn divider_for_the_optimal_frequency() {
    let config = Config::default();
    assert_eq!(config.frequency, 40_000);
    assert_eq!(calc_divider(32_000_000, &config), Ok(399));
    assert_eq!(calc_divider(32_000_000, &config.with_frequency(100_000)), Ok(159));
}

#[test]
fn divider_errors() {
    let config = Config::default();
    assert_eq!(calc_divider(32_000_000, &config.with_frequency(0)), Err(Error::FrequencyOutOfRange));
    assert_eq!(
        calc_divider(32_000_000, &config.with_frequency(100_001)),
        Err(Error::FrequencyOutOfRange)
    );
    assert_eq!(calc_divider(32_768, &config), Err(Error::DividerUnderflow));
    assert_eq!(calc_divider(u32::MAX, &config.with_frequency(1)), Err(Error::DividerOverflow));
}

#[test]
fn sensor_clock_sources() {
    let clocks = Clocks::new(Hertz(32_000_000), 1);
    let config = Config::default();
    assert_eq!(real_clock(&config, &clocks), 16_000_000);
    assert_eq!(real_clock(&config.clock_from_source(ClockSource::HLCL), &clocks), 8_000_000);
    assert_eq!(real_clock(&config.clock_from_source(ClockSource::LSI32K), &clocks), 32_768);
    assert_eq!(ClockSource::OSC32K.bits(), 4);
}

#[test]
fn temperature_conversions() {
    assert_eq!(value_to_celsius(400), 5_465);
    assert_eq!(celsius_to_value(25), 336);
    assert_eq!(threshold_value(0), Ok(289));
    assert_eq!(threshold_value(125), Ok(603));
    assert_eq!(threshold_value(126), Err(Error::ThresholdOutOfRange));
    assert_eq!(measurement(0xffff_f123), 0x123);
}

#[test]
fn a_zero_divider_is_refused() {
    // The 32 kHz oscillator at half its rate would need a register value of 0.
    let config = Config::default().with_frequency(16_384);
    assert_eq!(calc_divider(32_768, &config), Err(Error::DividerUnderflow));
    // One step above still fits the register.
    assert_eq!(calc_divider(32_000, &Config::default().with_frequency(8_000)), Ok(1));
}

#[test]
fn conversion_checks_match_the_arithmetic() {
    assert!(is_value_convertible(512));
    assert!(!is_value_convertible(0));
    assert!(!is_value_convertible(u32::MAX));
    assert!(is_celsius_convertible(25));
    assert!(!is_celsius_convertible(u32::MAX / 100));
}
