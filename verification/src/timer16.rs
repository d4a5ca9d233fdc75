//! The three 16-bit timers.
//!
//! A timer counts `ARR + 1` prescaled ticks per period; the prescaler
//! divides its clock by a power of two from 1 to 128. This module selects a
//! prescaler and auto-reload value for a requested period or frequency and
//! reports the period actually produced.

use vstd::prelude::*;
use crate::clock::Hertz;
use crate::rcc::{Clocks, HSI32M_HZ, LSI32K_HZ, OSC32K_HZ, OSC32M_HZ};

verus! {

/// Ticks per period of the 16-bit counter: `ARR` plus one.
pub const MAX_COUNTER_TICKS: u64 = 65536;

/// Clock selected for a timer in `PM.TIMER_CFG`.
#[derive(Clone, Copy, Debug, PartialEq, Eq, Structural)]
pub enum TimerClock {
    SysClk,
    Hclk,
    Osc32m,
    Hsi32m,
    Osc32k,
    Lsi32k,
}

impl Default for TimerClock {
    fn default() -> (r: Self)
        ensures
            r == TimerClock::SysClk,
    {
        TimerClock::SysClk
    }
}

impl TimerClock {
    /// The frequency of the clock on the given clock tree.
    pub fn frequency(self, clocks: &Clocks) -> (r: Hertz)
        ensures
            self == TimerClock::SysClk ==> r.0 == clocks.sys_hz(),
            self == TimerClock::Hclk ==> r.0 == clocks.ahb_hz(),
            self == TimerClock::Osc32m ==> r.0 == OSC32M_HZ,
            self == TimerClock::Hsi32m ==> r.0 == HSI32M_HZ,
            self == TimerClock::Osc32k ==> r.0 == OSC32K_HZ,
            self == TimerClock::Lsi32k ==> r.0 == LSI32K_HZ,
    {
        match self {
            TimerClock::SysClk => clocks.sysclk(),
            TimerClock::Hclk => clocks.ahbclk(),
            TimerClock::Osc32m => Hertz(OSC32M_HZ),
            TimerClock::Hsi32m => Hertz(HSI32M_HZ),
            TimerClock::Osc32k => Hertz(OSC32K_HZ),
            TimerClock::Lsi32k => Hertz(LSI32K_HZ),
        }
    }

    /// The three-bit `MUX_TIM16_x` value.
    pub open spec fn spec_mux_bits(self) -> u8 {
        match self {
            TimerClock::SysClk => 0u8,
            TimerClock::Hclk => 1u8,
            TimerClock::Osc32m => 2u8,
            TimerClock::Hsi32m => 3u8,
            TimerClock::Osc32k => 4u8,
            TimerClock::Lsi32k => 5u8,
        }
    }

    /// The three-bit `MUX_TIM16_x` value.
    pub fn mux_bits(self) -> (r: u8)
        ensures
            r == self.spec_mux_bits(),
    {
        match self {
            TimerClock::SysClk => 0,
            TimerClock::Hclk => 1,
            TimerClock::Osc32m => 2,
            TimerClock::Hsi32m => 3,
            TimerClock::Osc32k => 4,
            TimerClock::Lsi32k => 5,
        }
    }

    /// The clock selected by a `MUX_TIM16_x` value read back; unknown values
    /// read as the system clock.
    pub fn from_mux_bits(bits: u8) -> (r: Self)
        ensures
            bits <= 5 ==> r.spec_mux_bits() == bits,
            bits > 5 ==> r == TimerClock::SysClk,
    {
        match bits {
            0 => TimerClock::SysClk,
            1 => TimerClock::Hclk,
            2 => TimerClock::Osc32m,
            3 => TimerClock::Hsi32m,
            4 => TimerClock::Osc32k,
            5 => TimerClock::Lsi32k,
            _ => TimerClock::SysClk,
        }
    }

    /// Whether the clock is running, from the oscillator status flags of
    /// `PM.FREQ_STATUS`; the system and bus clocks always are.
    pub fn is_ready(self, osc32m: bool, hsi32m: bool, osc32k: bool, lsi32k: bool) -> (r: bool)
        ensures
            r == (match self {
                TimerClock::SysClk | TimerClock::Hclk => true,
                TimerClock::Osc32m => osc32m,
                TimerClock::Hsi32m => hsi32m,
                TimerClock::Osc32k => osc32k,
                TimerClock::Lsi32k => lsi32k,
            }),
    {
        match self {
            TimerClock::SysClk | TimerClock::Hclk => true,
            TimerClock::Osc32m => osc32m,
            TimerClock::Hsi32m => hsi32m,
            TimerClock::Osc32k => osc32k,
            TimerClock::Lsi32k => lsi32k,
        }
    }
}

/// Timer errors.
#[derive(Clone, Copy, Debug, PartialEq, Eq, Structural)]
pub enum Error {
    ZeroPeriod,
    PeriodTooLong,
    FrequencyTooHigh,
    FrequencyTooLow,
    ClockDisabled,
}

/// A period programmed into a timer.
#[derive(Clone, Copy, Debug, PartialEq, Eq, Structural)]
pub struct Period {
    pub prescaler: Prescaler,
    pub auto_reload: u16,
    /// The period actually produced, in nanoseconds.
    pub actual_nanos: u64,
}

/// Clock prescaler: division by a power of two.
#[derive(Clone, Copy, Debug, PartialEq, Eq, Structural)]
pub enum Prescaler {
    Div1,
    Div2,
    Div4,
    Div8,
    Div16,
    Div32,
    Div64,
    Div128,
}

impl Default for Prescaler {
    fn default() -> (r: Self)
        ensures
            r == Prescaler::Div1,
    {
        Prescaler::Div1
    }
}

/// The prescalers in ascending order.
pub open spec fn prescaler_at(i: int) -> Prescaler {
    if i == 0 {
        Prescaler::Div1
    } else if i == 1 {
        Prescaler::Div2
    } else if i == 2 {
        Prescaler::Div4
    } else if i == 3 {
        Prescaler::Div8
    } else if i == 4 {
        Prescaler::Div16
    } else if i == 5 {
        Prescaler::Div32
    } else if i == 6 {
        Prescaler::Div64
    } else {
        Prescaler::Div128
    }
}

/// `2^i` for the prescaler index `i`.
pub open spec fn divisor_at(i: int) -> u64 {
    if i == 0 {
        1
    } else if i == 1 {
        2
    } else if i == 2 {
        4
    } else if i == 3 {
        8
    } else if i == 4 {
        16
    } else if i == 5 {
        32
    } else if i == 6 {
        64
    } else {
        128
    }
}

impl Prescaler {
    /// The three-bit `PRESC` field value.
    pub fn bits(self) -> (r: u8)
        ensures
            prescaler_at(r as int) == self,
            r < 8,
    {
        match self {
            Prescaler::Div1 => 0,
            Prescaler::Div2 => 1,
            Prescaler::Div4 => 2,
            Prescaler::Div8 => 3,
            Prescaler::Div16 => 4,
            Prescaler::Div32 => 5,
            Prescaler::Div64 => 6,
            Prescaler::Div128 => 7,
        }
    }
}

/// Output waveform.
#[derive(Clone, Copy, Debug, PartialEq, Eq, Structural)]
pub enum OutputMode {
    NonInverted,
    Inverted,
    SetOnce,
}

impl Default for OutputMode {
    fn default() -> (r: Self)
        ensures
            r == OutputMode::NonInverted,
    {
        OutputMode::NonInverted
    }
}

/// Timer events.
#[derive(Clone, Copy, Debug, PartialEq, Eq, Structural)]
pub enum Event {
    CompareMatch,
    AutoReloadMatch,
    ExternalTrigger,
    AutoReloadUpdateDone,
    CountUp,
    CountDown,
}

/// Raw timer configuration.
#[derive(Clone, Copy, Debug, PartialEq, Eq, Structural)]
pub struct Config {
    pub period: u16,
    pub compare: u16,
    pub prescaler: Prescaler,
    pub output: OutputMode,
    /// Apply new ARR/CMP values at the end of the current period.
    pub preload: bool,
}

impl Default for Config {
    fn default() -> (r: Self)
        ensures
            r == (Config {
                period: u16::MAX,
                compare: 0,
                prescaler: Prescaler::Div1,
                output: OutputMode::NonInverted,
                preload: true,
            }),
    {
        Config {
            period: u16::MAX,
            compare: 0,
            prescaler: Prescaler::Div1,
            output: OutputMode::NonInverted,
            preload: true,
        }
    }
}

impl Config {
    /// The `CFGR` fields `WAVE` (set-once waveform) and `WAVPOL` (inverted).
    pub fn waveform_bits(&self) -> (r: (bool, bool))
        ensures
            r.0 == (self.output == OutputMode::SetOnce),
            r.1 == (self.output == OutputMode::Inverted),
    {
        (
            match self.output {
                OutputMode::SetOnce => true,
                _ => false,
            },
            match self.output {
                OutputMode::Inverted => true,
                _ => false,
            },
        )
    }
}

/// `numerator / denominator` rounded to the nearest integer, halves up.
pub open spec fn spec_rounded_div(numerator: int, denominator: int) -> int {
    (numerator + denominator / 2) / denominator
}

/// Division rounded to the nearest integer.
pub fn rounded_div(numerator: u128, denominator: u128) -> (r: u128)
    requires
        denominator > 0,
        numerator + denominator / 2 <= u128::MAX,
    ensures
        r == spec_rounded_div(numerator as int, denominator as int),
{
    (numerator + denominator / 2) / denominator
}

/// The counter ticks for `source_ticks` clock ticks with divisor `d`: the
/// rounded quotient, at least one.
pub open spec fn counter_ticks(source_ticks: u64, d: u64) -> int {
    let q = (source_ticks + d / 2) / (d as int);
    if q < 1 {
        1
    } else {
        q
    }
}

/// Index of the first prescaler from `from` on whose counter ticks fit the
/// 16-bit counter.
pub open spec fn first_prescaler(source_ticks: u64, from: int) -> Option<int>
    decreases 8 - from,
{
    if from >= 8 || from < 0 {
        None
    } else if counter_ticks(source_ticks, divisor_at(from)) <= MAX_COUNTER_TICKS {
        Some(from)
    } else {
        first_prescaler(source_ticks, from + 1)
    }
}

/// The prescaler choice for a number of clock ticks: the smallest prescaler
/// whose rounded counter ticks fit, with its divisor and counter ticks.
pub open spec fn spec_select_prescaler(source_ticks: u64) -> Option<(Prescaler, u64, u64)> {
    match first_prescaler(source_ticks, 0) {
        Some(i) => Some(
            (prescaler_at(i), divisor_at(i), counter_ticks(source_ticks, divisor_at(i)) as u64),
        ),
        None => None,
    }
}

/// Selects the smallest prescaler whose rounded number of counter ticks fits
/// the 16-bit counter.
pub fn select_prescaler(source_ticks: u64) -> (r: Option<(Prescaler, u64, u64)>)
    requires
        source_ticks <= u64::MAX - 64,
    ensures
        r == spec_select_prescaler(source_ticks),
{
    let mut i: u8 = 0;
    while i < 8
        invariant
            i <= 8,
            source_ticks <= u64::MAX - 64,
            first_prescaler(source_ticks, 0) == first_prescaler(source_ticks, i as int),
        decreases 8 - i,
    {
        let divisor: u64 = 1u64 << i as u64;
        assert(divisor == divisor_at(i as int)) by (bit_vector)
            requires
                divisor == 1u64 << i as u64,
                i < 8,
                divisor_at(i as int) == (if i == 0 {
                    1u64
                } else if i == 1 {
                    2u64
                } else if i == 2 {
                    4u64
                } else if i == 3 {
                    8u64
                } else if i == 4 {
                    16u64
                } else if i == 5 {
                    32u64
                } else if i == 6 {
                    64u64
                } else {
                    128u64
                }),
        ;
        let q = (source_ticks + divisor / 2) / divisor;
        let ticks = if q < 1 {
            1
        } else {
            q
        };
        if ticks <= MAX_COUNTER_TICKS {
            let prescaler = match i {
                0 => Prescaler::Div1,
                1 => Prescaler::Div2,
                2 => Prescaler::Div4,
                3 => Prescaler::Div8,
                4 => Prescaler::Div16,
                5 => Prescaler::Div32,
                6 => Prescaler::Div64,
                _ => Prescaler::Div128,
            };
            return Some((prescaler, divisor, ticks));
        }
        i = i + 1;
    }
    None
}

/// The period produced by `source_ticks` clock ticks on a clock of
/// `clock_hz`, or `too_long` when no prescaler fits.
pub open spec fn spec_apply(clock_hz: u32, source_ticks: u64, too_long: Error) -> Result<Period, Error> {
    match spec_select_prescaler(source_ticks) {
        Some((prescaler, divisor, ticks)) => Ok(
            Period {
                prescaler,
                auto_reload: (ticks - 1) as u16,
                actual_nanos: spec_rounded_div(ticks * divisor * 1_000_000_000, clock_hz as int)
                    as u64,
            },
        ),
        None => Err(too_long),
    }
}

/// Chooses the prescaler and auto-reload value for `source_ticks` clock
/// ticks and computes the resulting period in nanoseconds.
pub fn apply_source_ticks(clock_hz: u32, source_ticks: u64, too_long: Error) -> (r: Result<
    Period,
    Error,
>)
    requires
        clock_hz > 0,
        source_ticks <= u64::MAX - 64,
    ensures
        r == spec_apply(clock_hz, source_ticks, too_long),
{
    match select_prescaler(source_ticks) {
        Some((prescaler, divisor, ticks)) => {
            proof {
                lemma_selection_bounds(source_ticks);
            }
            assert(ticks <= MAX_COUNTER_TICKS && divisor <= 128);
            assert(ticks * divisor <= 65536 * 128) by (nonlinear_arith)
                requires
                    ticks <= 65536,
                    divisor <= 128,
            ;
            let actual = ticks * divisor;
            let nanos = rounded_div(actual as u128 * 1_000_000_000, clock_hz as u128);
            assert(nanos <= actual as u128 * 1_000_000_000) by (nonlinear_arith)
                requires
                    nanos == (actual as u128 * 1_000_000_000 + clock_hz / 2) / (clock_hz as int),
                    clock_hz >= 1,
            ;
            Ok(
                Period {
                    prescaler,
                    auto_reload: (ticks - 1) as u16,
                    actual_nanos: nanos as u64,
                },
            )
        },
        None => Err(too_long),
    }
}

/// The prescaler chosen for any number of ticks is one of the eight, and its
/// counter ticks are between 1 and 65536.
pub proof fn lemma_selection_bounds(source_ticks: u64)
    requires
        spec_select_prescaler(source_ticks) is Some,
    ensures
        1 <= spec_select_prescaler(source_ticks)->Some_0.2 <= MAX_COUNTER_TICKS,
        1 <= spec_select_prescaler(source_ticks)->Some_0.1 <= 128,
{
    lemma_first_prescaler(source_ticks, 0);
}

proof fn lemma_first_prescaler(source_ticks: u64, from: int)
    requires
        0 <= from <= 8,
        first_prescaler(source_ticks, from) is Some,
    ensures
        ({
            let i = first_prescaler(source_ticks, from)->Some_0;
            &&& from <= i < 8
            &&& counter_ticks(source_ticks, divisor_at(i)) <= MAX_COUNTER_TICKS
            &&& forall|j: int|
                from <= j < i ==> #[trigger] counter_ticks(source_ticks, divisor_at(j))
                    > MAX_COUNTER_TICKS
        }),
    decreases 8 - from,
{
    if from < 8 && !(counter_ticks(source_ticks, divisor_at(from)) <= MAX_COUNTER_TICKS) {
        lemma_first_prescaler(source_ticks, from + 1);
    }
}

/// The chosen prescaler is the finest one that fits: every smaller prescaler
/// would need more than 65536 counter ticks. The prescaled period is within
/// half a prescaled tick of the request unless it was raised to one tick.
pub proof fn lemma_prescaler_is_finest_fit(source_ticks: u64)
    requires
        first_prescaler(source_ticks, 0) is Some,
    ensures
        ({
            let i = first_prescaler(source_ticks, 0)->Some_0;
            let d = divisor_at(i);
            let t = counter_ticks(source_ticks, d);
            &&& forall|j: int|
                0 <= j < i ==> #[trigger] counter_ticks(source_ticks, divisor_at(j))
                    > MAX_COUNTER_TICKS
            &&& t > 1 ==> t * d <= source_ticks + d / 2 && source_ticks + d / 2 < t * d + d
        }),
{
    lemma_first_prescaler(source_ticks, 0);
    let i = first_prescaler(source_ticks, 0)->Some_0;
    let d = divisor_at(i);
    let t = counter_ticks(source_ticks, d);
    if t > 1 {
        assert(t * d <= source_ticks + d / 2 && source_ticks + d / 2 < t * d + d) by (nonlinear_arith)
            requires
                d >= 1,
                t == (source_ticks + d / 2) / (d as int),
        ;
    }
}

/// The auto-reload value for a period of `ticks` counter ticks.
pub fn period_from_ticks(ticks: u32) -> (r: Result<u16, Error>)
    ensures
        ticks == 0 ==> r == Err::<u16, Error>(Error::ZeroPeriod),
        ticks > MAX_COUNTER_TICKS ==> r == Err::<u16, Error>(Error::PeriodTooLong),
        0 < ticks <= MAX_COUNTER_TICKS ==> r == Ok::<u16, Error>((ticks - 1) as u16),
{
    if ticks == 0 {
        return Err(Error::ZeroPeriod);
    }
    if ticks as u64 > MAX_COUNTER_TICKS {
        return Err(Error::PeriodTooLong);
    }
    Ok((ticks - 1) as u16)
}

/// Clock ticks in `micros` microseconds, rounded to the nearest tick.
pub open spec fn duration_ticks(clock_hz: u32, micros: u32) -> int {
    spec_rounded_div(clock_hz * micros, 1_000_000)
}

/// The period for a duration in microseconds on a clock of `clock_hz`.
pub fn duration_period(clock_hz: u32, micros: u32) -> (r: Result<Period, Error>)
    ensures
        micros == 0 || duration_ticks(clock_hz, micros) == 0 ==> r == Err::<Period, Error>(
            Error::ZeroPeriod,
        ),
        micros != 0 && duration_ticks(clock_hz, micros) != 0 ==> r == spec_apply(
            clock_hz,
            duration_ticks(clock_hz, micros) as u64,
            Error::PeriodTooLong,
        ),
{
    if micros == 0 {
        return Err(Error::ZeroPeriod);
    }
    let c = clock_hz as u128;
    let m = micros as u128;
    assert(c * m <= 0xffff_ffffu128 * 0xffff_ffffu128) by (nonlinear_arith)
        requires
            c <= 0xffff_ffffu128,
            m <= 0xffff_ffffu128,
    ;
    let numerator = c * m;
    let source_ticks = rounded_div(numerator, 1_000_000);
    if source_ticks == 0 {
        return Err(Error::ZeroPeriod);
    }
    assert(source_ticks <= 0xffff_ffff_ffff_ffffu128 / 1_000_000 + 1) by (nonlinear_arith)
        requires
            source_ticks == (numerator + 500_000) / 1_000_000,
            numerator <= 0xffff_ffffu128 * 0xffff_ffffu128,
    ;
    assert(clock_hz > 0) by (nonlinear_arith)
        requires
            source_ticks == (numerator + 500_000) / 1_000_000,
            source_ticks != 0,
            numerator == clock_hz * micros,
    ;
    apply_source_ticks(clock_hz, source_ticks as u64, Error::PeriodTooLong)
}

/// The period for a frequency on a clock of `clock_hz`: the rounded number
/// of clock ticks per cycle.
pub fn frequency_period(clock_hz: u32, frequency: u32) -> (r: Result<Period, Error>)
    ensures
        frequency == 0 ==> r == Err::<Period, Error>(Error::FrequencyTooLow),
        frequency != 0 && frequency > clock_hz ==> r == Err::<Period, Error>(
            Error::FrequencyTooHigh,
        ),
        frequency != 0 && frequency <= clock_hz ==> r == spec_apply(
            clock_hz,
            spec_rounded_div(clock_hz as int, frequency as int) as u64,
            Error::FrequencyTooLow,
        ),
{
    if frequency == 0 {
        return Err(Error::FrequencyTooLow);
    }
    if frequency > clock_hz {
        return Err(Error::FrequencyTooHigh);
    }
    let source_ticks = rounded_div(clock_hz as u128, frequency as u128);
    assert(source_ticks <= clock_hz) by (nonlinear_arith)
        requires
            source_ticks == (clock_hz + frequency / 2) / (frequency as int),
            frequency >= 1,
    ;
    apply_source_ticks(clock_hz, source_ticks as u64, Error::FrequencyTooLow)
}

} // verus!
