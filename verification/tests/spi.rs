use hal_mik32::clock::Hertz;
use hal_mik32::rcc::Clocks;
use hal_mik32::spi::{
    configure, divider_bits, mode_0, select_divider, status_error, transfer_length,
    transfer_tx_byte, Config, Delays, Error, ErrorKind, Mode, Phase, Polarity,
};

#[test]
fn selects_supported_divider_not_above_requested_frequency() {
    assert_eq!(select_divider(32_000_000, 8_000_000), Some(4));
    assert_eq!(select_divider(32_000_000, 1_000_000), Some(32));
    // 100 kHz is below the slowest supported rate (32 MHz / 256 = 125 kHz).
    // Division by 256 would run the bus at 125 kHz, above the request, which
    // this test's own rule ("not above the requested frequency") forbids;
    // requests below 125 kHz are refused, as 124_999 Hz is in
    // `rejects_frequency_below_hardware_minimum`.
    assert_eq!(select_divider(32_000_000, 100_000), None);
}

#[test]
fn rejects_frequency_below_hardware_minimum() {
    assert_eq!(select_divider(32_000_000, 125_000), Some(256));
    assert_eq!(select_divider(32_000_000, 124_999), None);
}

#[test]
fn configuration_is_checked_before_the_divider() {
    let clocks = Clocks::new(Hertz(32_000_000), 0);
    assert_eq!(configure(&clocks, &Config::default()), Ok(4));
    let zero = Config { frequency: Hertz(0), ..Config::default() };
    assert_eq!(configure(&clocks, &zero), Err(Error::InvalidFrequency));
    let no_timeout = Config { timeout: 0, ..Config::default() };
    assert_eq!(configure(&clocks, &no_timeout), Err(Error::InvalidTimeout));
    let no_threshold = Config { threshold: 0, ..Config::default() };
    assert_eq!(configure(&clocks, &no_threshold), Err(Error::InvalidThreshold));
    let slow = Config { frequency: Hertz(1_000), ..Config::default() };
    assert_eq!(configure(&clocks, &slow), Err(Error::InvalidFrequency));
    assert_eq!(Delays::default(), Delays { init: 0, after: 0, between: 0 });
}

#[test]
fn divider_and_mode_fields() {
    assert_eq!(divider_bits(4), 1);
    assert_eq!(divider_bits(32), 4);
    assert_eq!(divider_bits(256), 7);
    assert_eq!(mode_0().bits(), (false, false));
    assert_eq!(
        Mode { polarity: Polarity::IdleHigh, phase: Phase::CaptureOnSecondTransition }.bits(),
        (true, true)
    );
}

#[test]
fn errors_and_transfer_schedule() {
    assert_eq!(status_error(true, true), Some(Error::ModeFault));
    assert_eq!(status_error(false, true), Some(Error::RxOverflow));
    assert_eq!(status_error(false, false), None);
    assert_eq!(Error::ModeFault.kind(), ErrorKind::ModeFault);
    assert_eq!(Error::RxOverflow.kind(), ErrorKind::Overrun);
    assert_eq!(Error::Timeout.kind(), ErrorKind::Other);
    assert_eq!(transfer_length(3, 5), 5);
    assert_eq!(transfer_tx_byte(&[1, 2], 1), 2);
    assert_eq!(transfer_tx_byte(&[1, 2], 2), 0xff);
}

#[test]
fn requests_below_the_slowest_rate_get_no_divider() {
    assert_eq!(select_divider(32_000_000, 125_000), Some(256));
    assert_eq!(select_divider(32_000_000, 1), None);
    assert_eq!(select_divider(1_000, 2), None);
    assert_eq!(select_divider(1_000, 3), Some(256));
}
