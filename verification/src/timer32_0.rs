//! The basic 32-bit timer (`Timer32_0`).
//!
//! The counter runs from zero to `TOP` on a clock divided by
//! `PRESCALER + 1`. This module chooses the prescaler and top value for a
//! requested period or frequency and reports the period produced.

use vstd::prelude::*;
use crate::clock::Hertz;
use crate::rcc::{Clocks, LSI32K_HZ, OSC32K_HZ};

verus! {

/// Counting direction.
#[derive(Clone, Copy, Debug, PartialEq, Eq, Structural)]
pub enum CountMode {
    Up,
    Down,
    UpDown,
}

impl Default for CountMode {
    fn default() -> (r: Self)
        ensures
            r == CountMode::Up,
    {
        CountMode::Up
    }
}

/// Counter clock.
#[derive(Clone, Copy, Debug, PartialEq, Eq, Structural)]
pub enum ClockSource {
    /// HCLK divided by `prescaler + 1`.
    Prescaler,
    SystemClock,
    Hclk,
    Osc32k,
    Lsi32k,
    ExternalPin,
}

impl Default for ClockSource {
    fn default() -> (r: Self)
        ensures
            r == ClockSource::Prescaler,
    {
        ClockSource::Prescaler
    }
}

impl ClockSource {
    /// The two-bit `CONTROL.SOURCE` field value.
    pub fn source_bits(self) -> (r: u8)
        ensures
            r == (match self {
                ClockSource::Prescaler => 0u8,
                ClockSource::SystemClock | ClockSource::Hclk => 1u8,
                ClockSource::ExternalPin => 2u8,
                ClockSource::Osc32k | ClockSource::Lsi32k => 3u8,
            }),
    {
        match self {
            ClockSource::Prescaler => 0,
            ClockSource::SystemClock | ClockSource::Hclk => 1,
            ClockSource::ExternalPin => 2,
            ClockSource::Osc32k | ClockSource::Lsi32k => 3,
        }
    }
}

/// Counter events.
#[derive(Clone, Copy, Debug, PartialEq, Eq, Structural)]
pub enum Event {
    Overflow,
    Underflow,
}

/// Timer errors.
#[derive(Clone, Copy, Debug, PartialEq, Eq, Structural)]
pub enum Error {
    ZeroPeriod,
    PeriodTooLong,
    FrequencyTooHigh,
    FrequencyTooLow,
    UnknownClockFrequency,
}

/// A period programmed into the timer.
#[derive(Clone, Copy, Debug, PartialEq, Eq, Structural)]
pub struct Period {
    pub prescaler: u32,
    pub top: u32,
    /// The period actually produced, in nanoseconds.
    pub actual_nanos: u64,
}

/// Raw timer configuration.
#[derive(Clone, Copy, Debug, PartialEq, Eq, Structural)]
pub struct Config {
    pub top: u32,
    /// The divider is `prescaler + 1` when [`ClockSource::Prescaler`] is used.
    pub prescaler: u32,
    pub count_mode: CountMode,
    pub clock_source: ClockSource,
}

impl Default for Config {
    fn default() -> (r: Self)
        ensures
            r == (Config {
                top: u32::MAX,
                prescaler: 0,
                count_mode: CountMode::Up,
                clock_source: ClockSource::Prescaler,
            }),
    {
        Config {
            top: u32::MAX,
            prescaler: 0,
            count_mode: CountMode::Up,
            clock_source: ClockSource::Prescaler,
        }
    }
}

/// The counter clock of a source on the given clock tree; an external pin
/// has no known frequency.
pub fn clock_frequency(source: ClockSource, clocks: &Clocks) -> (r: Option<Hertz>)
    ensures
        (source == ClockSource::Prescaler || source == ClockSource::Hclk) ==> r == Some(
            Hertz(clocks.ahb_hz()),
        ),
        source == ClockSource::SystemClock ==> r == Some(Hertz(clocks.sys_hz())),
        source == ClockSource::Osc32k ==> r == Some(Hertz(OSC32K_HZ)),
        source == ClockSource::Lsi32k ==> r == Some(Hertz(LSI32K_HZ)),
        source == ClockSource::ExternalPin ==> r is None,
{
    match source {
        ClockSource::Prescaler | ClockSource::Hclk => Some(clocks.ahbclk()),
        ClockSource::SystemClock => Some(clocks.sysclk()),
        ClockSource::Osc32k => Some(Hertz(OSC32K_HZ)),
        ClockSource::Lsi32k => Some(Hertz(LSI32K_HZ)),
        ClockSource::ExternalPin => None,
    }
}

/// 2^32: the counter range.
pub open spec fn range() -> int {
    0x1_0000_0000
}

/// Clock ticks for `units` of `1/scale` second, rounded to the nearest tick.
pub open spec fn source_ticks(clock: u32, units: u32, scale: u32) -> int {
    (clock * units + scale / 2) / (scale as int)
}

/// The prescaler divisor: the smallest that brings the ticks into the
/// 32-bit counter range, at least one.
pub open spec fn timing_divisor(source: int) -> int {
    let d = (source + range() - 1) / range();
    if d < 1 {
        1
    } else {
        d
    }
}

/// The counter ticks for a divisor: the rounded quotient, clamped to
/// `1..=2^32`.
pub open spec fn timing_counter(source: int, divisor: int) -> int {
    let c = (source + divisor / 2) / divisor;
    if c < 1 {
        1
    } else if c > range() {
        range()
    } else {
        c
    }
}

/// The period produced by `counter * divisor` ticks, in nanoseconds,
/// rounded to the nearest nanosecond.
pub open spec fn timing_nanos(clock: u32, counter: int, divisor: int) -> int {
    (counter * divisor * 1_000_000_000 + clock / 2) / (clock as int)
}

/// The timing for `units` of `1/scale` second on a clock of `clock` hertz.
pub open spec fn spec_timing(clock: u32, units: u32, scale: u32) -> Result<Period, Error> {
    let s = source_ticks(clock, units, scale);
    let d = timing_divisor(s);
    let c = timing_counter(s, d);
    if units == 0 || s == 0 {
        Err(Error::ZeroPeriod)
    } else if d > range() {
        Err(Error::PeriodTooLong)
    } else if timing_nanos(clock, c, d) > u64::MAX {
        Err(Error::PeriodTooLong)
    } else {
        Ok(
            Period {
                prescaler: (d - 1) as u32,
                top: (c - 1) as u32,
                actual_nanos: timing_nanos(clock, c, d) as u64,
            },
        )
    }
}

/// Chooses the prescaler and top value for `units` of `1/scale` second:
/// the clock ticks are rounded, the prescaler divisor is the smallest that
/// fits the ticks into the 32-bit counter, and the counter ticks are
/// rounded again. The produced period is reported in nanoseconds.
pub fn calculate_timing(clock: u32, units: u32, scale: u32) -> (r: Result<Period, Error>)
    requires
        scale > 0,
    ensures
        r == spec_timing(clock, units, scale),
{
    if units == 0 {
        return Err(Error::ZeroPeriod);
    }
    let c = clock as u128;
    let u = units as u128;
    assert(c * u <= 0xffff_ffffu128 * 0xffff_ffffu128) by (nonlinear_arith)
        requires
            c <= 0xffff_ffffu128,
            u <= 0xffff_ffffu128,
    ;
    let source = (c * u + scale as u128 / 2) / scale as u128;
    if source == 0 {
        return Err(Error::ZeroPeriod);
    }
    assert(source <= 0xffff_ffffu128 * 0xffff_ffffu128 + 0x8000_0000u128) by (nonlinear_arith)
        requires
            source == (c * u + scale / 2) / (scale as int),
            c * u <= 0xffff_ffffu128 * 0xffff_ffffu128,
            scale >= 1,
    ;
    let range: u128 = 0x1_0000_0000;
    let q = (source + range - 1) / range;
    let divisor = if q < 1 {
        1
    } else {
        q
    };
    if divisor > range {
        return Err(Error::PeriodTooLong);
    }
    let c1 = (source + divisor / 2) / divisor;
    let counter = if c1 < 1 {
        1
    } else if c1 > range {
        range
    } else {
        c1
    };
    assert(counter * divisor <= range * range) by (nonlinear_arith)
        requires
            counter <= range,
            divisor <= range,
            counter >= 1,
            divisor >= 1,
    ;
    let actual = counter * divisor;
    assert(clock > 0) by (nonlinear_arith)
        requires
            source == (c * u + scale / 2) / (scale as int),
            c == clock,
            source != 0,
            scale >= 1,
    ;
    let nanos = (actual * 1_000_000_000 + c / 2) / c;
    if nanos > u64::MAX as u128 {
        return Err(Error::PeriodTooLong);
    }
    Ok(
        Period {
            prescaler: (divisor - 1) as u32,
            top: (counter - 1) as u32,
            actual_nanos: nanos as u64,
        },
    )
}

/// A timing always fits the registers: the prescaler divisor and the
/// counter ticks are both between 1 and 2^32, and the divisor is the
/// smallest that fits the ticks into the counter.
pub proof fn lemma_timing_fits_registers(clock: u32, units: u32, scale: u32)
    requires
        scale > 0,
        spec_timing(clock, units, scale) is Ok,
    ensures
        ({
            let s = source_ticks(clock, units, scale);
            let d = timing_divisor(s);
            &&& 1 <= d <= range()
            &&& 1 <= timing_counter(s, d) <= range()
            &&& s <= d * range()
            &&& d > 1 ==> s > (d - 1) * range()
        }),
{
    let s = source_ticks(clock, units, scale);
    let d = timing_divisor(s);
    let q = (s + range() - 1) / range();
    assert(s >= 1);
    assert(q * range() >= s && (q - 1) * range() < s) by (nonlinear_arith)
        requires
            q == (s + 0x1_0000_0000 - 1) / 0x1_0000_0000,
            s >= 1,
    ;
}

/// The timing for a duration in microseconds, or why there is none.
pub fn duration_timing(clock: Option<Hertz>, micros: u32) -> (r: Result<Period, Error>)
    ensures
        clock is None ==> r == Err::<Period, Error>(Error::UnknownClockFrequency),
        clock is Some ==> r == spec_timing(clock->Some_0.0, micros, 1_000_000),
{
    match clock {
        None => Err(Error::UnknownClockFrequency),
        Some(c) => calculate_timing(c.0, micros, 1_000_000),
    }
}

/// The timing for a frequency, or why there is none: the frequency must be
/// nonzero and not above the counter clock.
pub fn frequency_timing(clock: Option<Hertz>, requested: u32) -> (r: Result<Period, Error>)
    ensures
        clock is None ==> r == Err::<Period, Error>(Error::UnknownClockFrequency),
        clock is Some && requested == 0 ==> r == Err::<Period, Error>(Error::FrequencyTooLow),
        clock is Some && requested != 0 && requested > clock->Some_0.0 ==> r == Err::<
            Period,
            Error,
        >(Error::FrequencyTooHigh),
        clock is Some && requested != 0 && requested <= clock->Some_0.0 ==> r == spec_timing(
            clock->Some_0.0,
            1,
            requested,
        ),
{
    match clock {
        None => Err(Error::UnknownClockFrequency),
        Some(c) => {
            if requested == 0 {
                return Err(Error::FrequencyTooLow);
            }
            if requested > c.0 {
                return Err(Error::FrequencyTooHigh);
            }
            calculate_timing(c.0, 1, requested)
        },
    }
}

/// The interrupt flag of an event: bit 0 for overflow, bit 1 for underflow.
pub fn event_mask(event: Event) -> (r: u32)
    ensures
        event == Event::Overflow ==> r == 1,
        event == Event::Underflow ==> r == 2,
{
    match event {
        Event::Overflow => 1,
        Event::Underflow => 2,
    }
}

} // verus!
