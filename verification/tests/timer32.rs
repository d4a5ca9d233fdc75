use hal_mik32::clock::Hertz;
use hal_mik32::rcc::Clocks;
use hal_mik32::timer32_0::{
    calculate_timing, clock_frequency, duration_timing, frequency_timing, ClockSource, Config,
    CountMode, Error, Event, Period,
};
use hal_mik32::timer32_2::{all_events_mask, event_mask, Channel, PwmPolarity};

#[test]
fn short_periods_need_no_prescaler() {
    assert_eq!(
        calculate_timing(32_000_000, 1_000, 1_000_000),
        Ok(Period { prescaler: 0, top: 31_999, actual_nanos: 1_000_000 })
    );
    assert_eq!(
        duration_timing(Some(Hertz(32_000_000)), 1),
        Ok(Period { prescaler: 0, top: 31, actual_nanos: 1_000 })
    );
}

#[test]
fn long_periods_use_the_smallest_prescaler() {
    // 200 s at 32 MHz are 6.4e9 ticks: two ticks per count.
    assert_eq!(
        calculate_timing(32_000_000, 200, 1),
        Ok(Period { prescaler: 1, top: 3_199_999_999, actual_nanos: 200_000_000_000 })
    );
}

#[test]
fn frequencies_are_checked_against_the_clock() {
    let clock = Some(Hertz(32_000_000));
    assert_eq!(
        frequency_timing(clock, 1_000),
        Ok(Period { prescaler: 0, top: 31_999, actual_nanos: 1_000_000 })
    );
    assert_eq!(frequency_timing(clock, 0), Err(Error::FrequencyTooLow));
    assert_eq!(frequency_timing(clock, 32_000_001), Err(Error::FrequencyTooHigh));
    assert_eq!(frequency_timing(None, 1_000), Err(Error::UnknownClockFrequency));
    assert_eq!(duration_timing(None, 10), Err(Error::UnknownClockFrequency));
    assert_eq!(duration_timing(clock, 0), Err(Error::ZeroPeriod));
    assert_eq!(calculate_timing(0, 10, 1), Err(Error::ZeroPeriod));
}

#[test]
fn counter_clock_sources() {
    let clocks = Clocks::new(Hertz(32_000_000), 1);
    assert_eq!(clock_frequency(ClockSource::Prescaler, &clocks), Some(Hertz(16_000_000)));
    assert_eq!(clock_frequency(ClockSource::SystemClock, &clocks), Some(Hertz(32_000_000)));
    assert_eq!(clock_frequency(ClockSource::Osc32k, &clocks), Some(Hertz(32_768)));
    assert_eq!(clock_frequency(ClockSource::ExternalPin, &clocks), None);
    assert_eq!(ClockSource::Lsi32k.source_bits(), 3);
    assert_eq!(ClockSource::ExternalPin.source_bits(), 2);
    let config = Config::default();
    assert_eq!(config.top, u32::MAX);
    assert_eq!(config.count_mode, CountMode::Up);
}

#[test]
fn events_and_channels() {
    assert_eq!(event_mask(Event::Overflow), 1);
    assert_eq!(event_mask(Event::Underflow), 2);
    assert_eq!(all_events_mask(), 3);
    assert_eq!(Channel::Channel0.register_number(), 1);
    assert_eq!(Channel::Channel3.register_number(), 4);
    assert!(PwmPolarity::Inverted.inverted());
    assert!(!PwmPolarity::Direct.inverted());
}
