use hal_mik32::clock::Hertz;
use hal_mik32::rcc::Clocks;
use hal_mik32::timer16::{
    duration_period, frequency_period, period_from_ticks, rounded_div, select_prescaler, Config,
    Error, OutputMode, Period, Prescaler, TimerClock,
};

#[test]
fn short_durations_use_no_prescaler() {
    assert_eq!(
        duration_period(32_000_000, 1_000),
        Ok(Period { prescaler: Prescaler::Div1, auto_reload: 31_999, actual_nanos: 1_000_000 })
    );
}

#[test]
fn longer_durations_pick_the_finest_prescaler_that_fits() {
    assert_eq!(
        duration_period(32_000_000, 10_000),
        Ok(Period { prescaler: Prescaler::Div8, auto_reload: 39_999, actual_nanos: 10_000_000 })
    );
    assert_eq!(select_prescaler(65_536), Some((Prescaler::Div1, 1, 65_536)));
    assert_eq!(select_prescaler(65_537), Some((Prescaler::Div2, 2, 32_769)));
    assert_eq!(select_prescaler(0), Some((Prescaler::Div1, 1, 1)));
    assert_eq!(select_prescaler(128 * 65_536 + 64), None);
}

#[test]
fn period_errors() {
    assert_eq!(duration_period(32_000_000, 0), Err(Error::ZeroPeriod));
    assert_eq!(duration_period(0, 1_000), Err(Error::ZeroPeriod));
    assert_eq!(duration_period(32_000_000, 300_000), Err(Error::PeriodTooLong));
    assert_eq!(frequency_period(32_000_000, 0), Err(Error::FrequencyTooLow));
    assert_eq!(frequency_period(32_000_000, 32_000_001), Err(Error::FrequencyTooHigh));
    assert_eq!(frequency_period(32_000_000, 1), Err(Error::FrequencyTooLow));
    assert_eq!(
        frequency_period(32_000_000, 1_000),
        Ok(Period { prescaler: Prescaler::Div1, auto_reload: 31_999, actual_nanos: 1_000_000 })
    );
    assert_eq!(period_from_ticks(0), Err(Error::ZeroPeriod));
    assert_eq!(period_from_ticks(65_536), Ok(65_535));
    assert_eq!(period_from_ticks(65_537), Err(Error::PeriodTooLong));
}

#[test]
fn rounding_and_fields() {
    assert_eq!(rounded_div(7, 2), 4);
    assert_eq!(rounded_div(5, 3), 2);
    assert_eq!(Prescaler::Div128.bits(), 7);
    assert_eq!(Prescaler::default(), Prescaler::Div1);
    let set_once = Config { output: OutputMode::SetOnce, ..Config::default() };
    assert_eq!(set_once.waveform_bits(), (true, false));
    assert_eq!(Config::default().waveform_bits(), (false, false));
    assert_eq!(Config::default().period, u16::MAX);
}

#[test]
fn timer_clock_selection() {
    let clocks = Clocks::new(Hertz(32_000_000), 3);
    assert_eq!(TimerClock::SysClk.frequency(&clocks), Hertz(32_000_000));
    assert_eq!(TimerClock::Hclk.frequency(&clocks), Hertz(8_000_000));
    assert_eq!(TimerClock::Lsi32k.frequency(&clocks), Hertz(32_768));
    assert_eq!(TimerClock::Osc32k.mux_bits(), 4);
    assert_eq!(TimerClock::from_mux_bits(3), TimerClock::Hsi32m);
    assert!(TimerClock::Hclk.is_ready(false, false, false, false));
    assert!(!TimerClock::Osc32m.is_ready(false, true, true, true));
}
