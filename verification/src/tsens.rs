//! Built-in temperature sensor (TSENS).
//!
//! The sensor runs on a clock divided from one of the system sources; its
//! optimal frequency is 40 kHz and it must not exceed 100 kHz. A measurement
//! is a ten-bit raw value that converts to degrees Celsius.

use vstd::prelude::*;
use crate::rcc::{Clocks, HSI32M_HZ, LSI32K_HZ, OSC32K_HZ, OSC32M_HZ};

verus! {

/// Recommended sensor frequency, in hertz.
pub const TSENS_OPTIMAL_FREQUENCY: u32 = 40000;

/// Highest sensor frequency, in hertz.
pub const TSENS_MAX_FREQUENCY: u32 = 100_000;

/// Largest divider value: the `DIV` field has ten bits.
pub const MAX_DIVIDER: u32 = 1023;

/// Sensor clock source (`CLK_MUX`).
#[derive(Clone, Copy, Debug, PartialEq, Eq, Structural)]
pub enum ClockSource {
    SycClock,
    HLCL,
    OSC32M,
    HSI32M,
    OSC32K,
    LSI32K,
}

impl ClockSource {
    /// The `CLK_MUX` field value.
    pub fn bits(self) -> (r: u8)
        ensures
            r == (match self {
                ClockSource::SycClock => 0u8,
                ClockSource::HLCL => 1u8,
                ClockSource::OSC32M => 2u8,
                ClockSource::HSI32M => 3u8,
                ClockSource::OSC32K => 4u8,
                ClockSource::LSI32K => 5u8,
            }),
    {
        match self {
            ClockSource::SycClock => 0,
            ClockSource::HLCL => 1,
            ClockSource::OSC32M => 2,
            ClockSource::HSI32M => 3,
            ClockSource::OSC32K => 4,
            ClockSource::LSI32K => 5,
        }
    }
}

/// Sensor configuration: clock source and target frequency.
#[derive(Debug, Clone, Copy, PartialEq, Eq, Structural)]
pub struct Config {
    pub source: ClockSource,
    pub frequency: u32,
}

impl Config {
    /// The system clock at the optimal frequency.
    pub fn default() -> (r: Self)
        ensures
            r == (Config { source: ClockSource::SycClock, frequency: TSENS_OPTIMAL_FREQUENCY }),
    {
        Config { source: ClockSource::SycClock, frequency: TSENS_OPTIMAL_FREQUENCY }
    }

    /// Selects the clock source.
    pub fn clock_from_source(self, source: ClockSource) -> (r: Self)
        ensures
            r == (Config { source, ..self }),
    {
        Config { source, ..self }
    }

    /// Sets the sensor frequency.
    pub fn with_frequency(self, frequency: u32) -> (r: Self)
        ensures
            r == (Config { frequency, ..self }),
    {
        Config { frequency, ..self }
    }
}

/// Sensor errors.
#[derive(Debug, Clone, Copy, PartialEq, Eq, Structural)]
pub enum Error {
    /// The conversion did not end in time.
    Timeout,
    /// The threshold is outside the measurable range.
    ThresholdOutOfRange,
    /// The configured frequency is zero or above 100 kHz.
    FrequencyOutOfRange,
    /// The computed divider is zero.
    DividerUnderflow,
    /// The computed divider exceeds the ten-bit field.
    DividerOverflow,
    /// Other hardware errors.
    Hardware,
}

/// The clock that feeds the sensor for a source on the given clock tree.
pub open spec fn spec_real_clock(source: ClockSource, clocks: Clocks) -> u32 {
    match source {
        ClockSource::SycClock => clocks.ahb_hz(),
        ClockSource::HLCL => (clocks.ahb_hz() / (clocks.ahb_div() + 1) as u32) as u32,
        ClockSource::OSC32M => OSC32M_HZ,
        ClockSource::HSI32M => HSI32M_HZ,
        ClockSource::OSC32K => OSC32K_HZ,
        ClockSource::LSI32K => LSI32K_HZ,
    }
}

/// The clock that feeds the sensor.
pub fn real_clock(config: &Config, clocks: &Clocks) -> (r: u32)
    ensures
        r == spec_real_clock(config.source, *clocks),
{
    match config.source {
        ClockSource::SycClock => clocks.ahbclk().0,
        ClockSource::HLCL => clocks.ahbclk().0 / (clocks.ahb_div_clk() + 1),
        ClockSource::OSC32M => OSC32M_HZ,
        ClockSource::HSI32M => HSI32M_HZ,
        ClockSource::OSC32K => OSC32K_HZ,
        ClockSource::LSI32K => LSI32K_HZ,
    }
}

/// The sensor frequency for divider step `d`: `clk / (2 d)`.
pub open spec fn step_frequency(clk: u32, d: int) -> int {
    (clk as int) / (2 * d)
}

/// Whether divider step `d` keeps the sensor at 100 kHz at most.
pub open spec fn fits(clk: u32, d: int) -> bool {
    step_frequency(clk, d) <= TSENS_MAX_FREQUENCY
}

/// `d` is the least step from `start` up to 0x400 that fits.
pub open spec fn least_fitting(clk: u32, start: int, d: int) -> bool {
    &&& start <= d <= 0x400
    &&& fits(clk, d)
    &&& forall|e: int| start <= e < d ==> !#[trigger] fits(clk, e)
}

/// The divider for a target frequency, or why there is none. The step
/// starts at half the ratio of the clock to the target and is the least
/// from there up to 0x400 that keeps the sensor at 100 kHz at most; the
/// register holds the step minus one, which must lie in `1..=1023`.
pub open spec fn spec_divider(clk: u32, frequency: u32) -> Result<u32, Error> {
    let start = (clk / frequency) / 2;
    if frequency == 0 || frequency > TSENS_MAX_FREQUENCY {
        Err(Error::FrequencyOutOfRange)
    } else if start == 0 {
        Err(Error::DividerUnderflow)
    } else if exists|d: int| least_fitting(clk, start as int, d) {
        let d = choose|d: int| least_fitting(clk, start as int, d);
        if d - 1 == 0 {
            Err(Error::DividerUnderflow)
        } else {
            Ok((d - 1) as u32)
        }
    } else {
        Err(Error::DividerOverflow)
    }
}

/// Computes the `DIV` value for a target frequency: starting from half the
/// ratio of the clock to the target, the divider step is raised until the
/// sensor runs at 100 kHz at most; the register holds the step minus one.
pub fn calc_divider(real_clock: u32, config: &Config) -> (r: Result<u32, Error>)
    ensures
        r == spec_divider(real_clock, config.frequency),
{
    if config.frequency == 0 || config.frequency > TSENS_MAX_FREQUENCY {
        return Err(Error::FrequencyOutOfRange);
    }
    let ratio = real_clock / config.frequency;
    let mut divider = ratio >> 1;
    assert(divider == ratio / 2) by (bit_vector)
        requires
            divider == ratio >> 1,
    ;
    if divider == 0 {
        return Err(Error::DividerUnderflow);
    }
    let ghost start = divider as int;
    assert(divider <= u32::MAX / 2);
    let mut pre_result = real_clock / (divider * 2);
    while pre_result > TSENS_MAX_FREQUENCY && divider <= 0x400
        invariant
            start <= divider,
            divider >= 1,
            divider <= u32::MAX / 2,
            0 < config.frequency <= TSENS_MAX_FREQUENCY,
            start == (real_clock / config.frequency) / 2,
            start != 0,
            pre_result == step_frequency(real_clock, divider as int),
            forall|e: int| start <= e < divider ==> !#[trigger] fits(real_clock, e),
        decreases 0x401 - divider,
    {
        divider = divider + 1;
        if divider > 0x400 {
            proof {
                assert forall|d: int| !least_fitting(real_clock, start, d) by {
                    if least_fitting(real_clock, start, d) {
                        assert(!fits(real_clock, d));
                    }
                }
            }
            return Err(Error::DividerOverflow);
        }
        pre_result = real_clock / (divider * 2);
    }
    if divider > 0x400 {
        proof {
            assert forall|d: int| !least_fitting(real_clock, start, d) by {
                if least_fitting(real_clock, start, d) {
                    assert(!fits(real_clock, d));
                }
            }
        }
        return Err(Error::DividerOverflow);
    }
    proof {
        assert(fits(real_clock, divider as int));
        assert(least_fitting(real_clock, start, divider as int));
        let d = choose|d: int| least_fitting(real_clock, start, d);
        if d < divider {
            assert(!fits(real_clock, d));
        }
        if d > divider {
            assert(!fits(real_clock, divider as int));
        }
        assert(d == divider);
    }
    divider = divider - 1;
    if divider == 0 {
        return Err(Error::DividerUnderflow);
    }
    Ok(divider)
}

/// An accepted divider lies in `1..=1023` and keeps the sensor clock at or
/// below 100 kHz: the register value `DIV` gives the frequency
/// `clk / (2 (DIV + 1))`.
pub proof fn lemma_divider_keeps_frequency_in_range(clk: u32, frequency: u32)
    requires
        spec_divider(clk, frequency) is Ok,
    ensures
        step_frequency(clk, spec_divider(clk, frequency)->Ok_0 + 1) <= TSENS_MAX_FREQUENCY,
        1 <= spec_divider(clk, frequency)->Ok_0 <= MAX_DIVIDER,
{
}

/// The raw sensor values whose conversion stays within 32-bit arithmetic
/// and above absolute zero on the scale used: `640660 * value` fits and the
/// intermediate quotient times ten is at least 27315.
pub open spec fn value_convertible(value: u32) -> bool {
    &&& 640_660 * value <= u32::MAX
    &&& (640_660 * value) / (40_960 + 93 * value) * 10 >= 27_315
}

/// Whether a raw value converts within 32-bit arithmetic: the check that
/// precedes [`value_to_celsius`].
pub fn is_value_convertible(value: u32) -> (r: bool)
    ensures
        r == value_convertible(value),
{
    let v = value as u64;
    let scaled = 640_660u64 * v;
    if scaled > 0xffff_ffffu64 {
        return false;
    }
    let den = 40_960u64 + 93u64 * v;
    let q = scaled / den;
    assert(q <= scaled) by (nonlinear_arith)
        requires
            q == scaled / den,
            den > 0,
    ;
    q * 10 >= 27_315
}

/// The temperature of a raw sensor value, by the calibration formula
/// `(640660 v) / (40960 + 93 v) * 10 - 27315` in integer arithmetic.
pub open spec fn spec_value_to_celsius(value: u32) -> int {
    (640_660 * value) / (40_960 + 93 * value) * 10 - 27_315
}

/// Converts a raw sensor value to the temperature of the calibration
/// formula.
pub fn value_to_celsius(value: u32) -> (r: u32)
    requires
        value_convertible(value),
    ensures
        r == spec_value_to_celsius(value),
{
    assert(40_960 + 93 * value <= u32::MAX) by (nonlinear_arith)
        requires
            640_660 * value <= u32::MAX,
    ;
    let q = (640_660u32 * value) / (40_960u32 + 93u32 * value);
    assert(q * 10 <= u32::MAX) by (nonlinear_arith)
        requires
            q == (640_660 * value) / (40_960 + 93 * value),
    ;
    q * 10 - 27_315
}

/// The temperatures whose conversion to a raw value stays within 32-bit
/// arithmetic and divides by a nonzero value.
pub open spec fn celsius_convertible(value: u32) -> bool {
    let x = value * 100 + 27315;
    &&& 93 * x <= 6_406_600
    &&& (6_406_600 - 93 * x) * 100 / x > 0
}

/// Whether a temperature converts to a raw value within 32-bit arithmetic
/// and without a zero divisor: the check that precedes
/// [`celsius_to_value`].
pub fn is_celsius_convertible(value: u32) -> (r: bool)
    ensures
        r == celsius_convertible(value),
{
    let x = value as u64 * 100 + 27_315;
    if 93 * x > 6_406_600 {
        return false;
    }
    (6_406_600 - 93 * x) * 100 / x > 0
}

/// The raw sensor value of a temperature, by the inverse formula
/// `4096000 / ((6406600 - 93 x) * 100 / x)` with `x = value * 100 + 27315`.
pub open spec fn spec_celsius_to_value(value: u32) -> int {
    let x = value * 100 + 27315;
    4_096_000int / ((6_406_600 - 93 * x) * 100 / x)
}

/// Converts a temperature to the raw sensor value.
pub fn celsius_to_value(value: u32) -> (r: u32)
    requires
        celsius_convertible(value),
    ensures
        r == spec_celsius_to_value(value),
{
    let x = value * 100 + 27315;
    let d = ((6_406_600 - 93 * x) * 100) / x;
    40960 * 100 / d
}

/// The raw threshold for a temperature: the raw value must lie in
/// `255..=603`.
pub fn threshold_value(celsius: u32) -> (r: Result<u32, Error>)
    requires
        celsius_convertible(celsius),
    ensures
        spec_celsius_to_value(celsius) > 603 || spec_celsius_to_value(celsius) < 255 ==> r == Err::<
            u32,
            Error,
        >(Error::ThresholdOutOfRange),
        255 <= spec_celsius_to_value(celsius) <= 603 ==> r == Ok::<u32, Error>(
            spec_celsius_to_value(celsius) as u32,
        ),
{
    let raw = celsius_to_value(celsius);
    if raw > 603 || raw < 255 {
        return Err(Error::ThresholdOutOfRange);
    }
    Ok(raw)
}

/// The ten-bit measurement of a `TSENS_VALUE` read.
pub fn measurement(register: u32) -> (r: u32)
    ensures
        r == register & 0x3ff,
        r <= 0x3ff,
{
    let r = register & 0x3ff;
    assert(register & 0x3ff <= 0x3ff) by (bit_vector);
    r
}

} // verus!
