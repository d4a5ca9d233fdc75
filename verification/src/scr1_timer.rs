//! The SCR1 64-bit system timer.
//!
//! The counter increments once every `divider + 1` input clocks; the input
//! clock is HCLK or the RTC clock. The machine timer interrupt fires when the
//! counter reaches the 64-bit compare value. This module converts durations
//! into counter increments and splits and joins the 64-bit values held in
//! pairs of 32-bit registers.

use vstd::prelude::*;

verus! {

/// Largest value of the ten-bit divider register.
pub const MAX_DIVIDER: u16 = 0x03ff;

/// Clock feeding the system timer's divider.
#[derive(Clone, Copy, Debug, PartialEq, Eq, Structural)]
pub enum ClockSource {
    /// HCLK, the default source after reset.
    Hclk,
    /// Clock selected by `PM.CPU_RTC_CLK_MUX`.
    Rtc,
}

impl Default for ClockSource {
    fn default() -> (r: Self)
        ensures
            r == ClockSource::Hclk,
    {
        ClockSource::Hclk
    }
}

/// System timer errors.
#[derive(Clone, Copy, Debug, PartialEq, Eq, Structural)]
pub enum Error {
    /// The divider register has only ten bits.
    DividerTooLarge,
    ZeroDuration,
    ZeroClockFrequency,
    DurationTooLong,
}

/// Result of scheduling a duration-based comparison.
#[derive(Clone, Copy, Debug, PartialEq, Eq, Structural)]
pub struct CompareSchedule {
    /// Number of system timer increments, rounded up to avoid an early match.
    pub ticks: u64,
    /// Value written to `MTIMECMP` and `MTIMECMPH`.
    pub threshold: u64,
}

/// Counter increments in `nanos` nanoseconds, rounded up:
/// `ceil(nanos * input_hz / (1e9 * (divider + 1)))`.
pub open spec fn spec_ticks(nanos: u64, input_hz: u32, divider: u16) -> int {
    (nanos * input_hz + 1_000_000_000 * (divider + 1) - 1) / (1_000_000_000 * (divider + 1))
}

/// Converts a duration into counter increments, rounding up so that the
/// comparison never matches early.
pub fn duration_to_ticks(nanos: u64, input_hz: u32, divider: u16) -> (r: Result<u64, Error>)
    ensures
        nanos == 0 ==> r == Err::<u64, Error>(Error::ZeroDuration),
        nanos != 0 && input_hz == 0 ==> r == Err::<u64, Error>(Error::ZeroClockFrequency),
        nanos != 0 && input_hz != 0 && spec_ticks(nanos, input_hz, divider) > u64::MAX ==> r
            == Err::<u64, Error>(Error::DurationTooLong),
        nanos != 0 && input_hz != 0 && spec_ticks(nanos, input_hz, divider) <= u64::MAX ==> r
            == Ok::<u64, Error>(spec_ticks(nanos, input_hz, divider) as u64),
{
    if nanos == 0 {
        return Err(Error::ZeroDuration);
    }
    if input_hz == 0 {
        return Err(Error::ZeroClockFrequency);
    }
    let n = nanos as u128;
    let f = input_hz as u128;
    assert(n * f <= 0xffff_ffff_ffff_ffffu128 * 0xffff_ffffu128) by (nonlinear_arith)
        requires
            n <= 0xffff_ffff_ffff_ffffu128,
            f <= 0xffff_ffffu128,
    ;
    let numerator = n * f;
    let denominator = 1_000_000_000u128 * (divider as u128 + 1);
    let q = numerator / denominator;
    let ticks = if numerator % denominator != 0 {
        q + 1
    } else {
        q
    };
    assert(ticks == (numerator + denominator - 1) / (denominator as int)) by (nonlinear_arith)
        requires
            denominator > 0,
            q == numerator / denominator,
            ticks == (if numerator % denominator != 0 {
                q + 1
            } else {
                q as int
            }),
    ;
    if ticks > u64::MAX as u128 {
        return Err(Error::DurationTooLong);
    }
    Ok(ticks as u64)
}

/// The rounded-up tick count never matches early and is the least that
/// does not: the ticks last at least the requested duration, one tick fewer
/// would last less.
pub proof fn lemma_ticks_never_early(nanos: u64, input_hz: u32, divider: u16)
    requires
        input_hz > 0,
    ensures
        spec_ticks(nanos, input_hz, divider) * (1_000_000_000 * (divider + 1)) >= nanos
            * input_hz,
        (spec_ticks(nanos, input_hz, divider) - 1) * (1_000_000_000 * (divider + 1)) < nanos
            * input_hz,
{
    let d: int = 1_000_000_000 * (divider + 1);
    let a: int = nanos * input_hz;
    let t = spec_ticks(nanos, input_hz, divider);
    assert(t == (a + d - 1) / d);
    assert(t * d >= a && (t - 1) * d < a) by (nonlinear_arith)
        requires
            d > 0,
            a >= 0,
            t == (a + d - 1) / d,
    ;
}

/// Checks a divider value for the ten-bit register.
pub fn check_divider(divider: u16) -> (r: Result<u16, Error>)
    ensures
        divider > MAX_DIVIDER ==> r == Err::<u16, Error>(Error::DividerTooLarge),
        divider <= MAX_DIVIDER ==> r == Ok::<u16, Error>(divider),
{
    if divider > MAX_DIVIDER {
        return Err(Error::DividerTooLarge);
    }
    Ok(divider)
}

/// The 64-bit value of a high and a low register word.
pub open spec fn joined(high: u32, low: u32) -> u64 {
    (high * 0x1_0000_0000 + low) as u64
}

/// Joins the two register words of a 64-bit value.
pub fn join(high: u32, low: u32) -> (r: u64)
    ensures
        r == joined(high, low),
{
    (high as u64) * 0x1_0000_0000 + low as u64
}

/// Splits a 64-bit value into its low and high register words.
pub fn split(value: u64) -> (r: (u32, u32))
    ensures
        r.0 == value % 0x1_0000_0000,
        r.1 == value / 0x1_0000_0000,
        joined(r.1, r.0) == value,
{
    let low = (value % 0x1_0000_0000) as u32;
    let high = (value / 0x1_0000_0000) as u32;
    assert(high * 0x1_0000_0000 + low == value) by (nonlinear_arith)
        requires
            low == value % 0x1_0000_0000,
            high == value / 0x1_0000_0000,
    ;
    (low, high)
}

/// The counter value from a read of the high word, the low word and the high
/// word again: consistent when the high word did not change in between (the
/// low word did not wrap); otherwise the read is repeated.
pub fn consistent_counter(high: u32, low: u32, high_again: u32) -> (r: Option<u64>)
    ensures
        high == high_again ==> r == Some(joined(high, low)),
        high != high_again ==> r is None,
{
    if high == high_again {
        Some(join(high, low))
    } else {
        None
    }
}

/// The compare threshold `ticks` increments after `counter`; the counter
/// wraps around at 2^64.
pub fn compare_after(counter: u64, ticks: u64) -> (r: u64)
    ensures
        r == (counter + ticks) % 0x1_0000_0000_0000_0000,
{
    counter.wrapping_add(ticks)
}

/// The schedule of a comparison after a duration.
pub fn schedule(counter: u64, ticks: u64) -> (r: CompareSchedule)
    ensures
        r.ticks == ticks,
        r.threshold == (counter + ticks) % 0x1_0000_0000_0000_0000,
{
    CompareSchedule { ticks, threshold: compare_after(counter, ticks) }
}

/// Reprogramming the compare value never lets it drop below both the old
/// and the new threshold: after the first write it is at least the old
/// value, after the second at least the new one.
pub proof fn lemma_compare_update_never_early(old: u64, value: u64)
    ensures
        joined((old / 0x1_0000_0000) as u32, u32::MAX) >= old,
        joined((value / 0x1_0000_0000) as u32, u32::MAX) >= value,
{
    assert(((old / 0x1_0000_0000) as u32) * 0x1_0000_0000 + u32::MAX >= old) by (nonlinear_arith);
    assert(((value / 0x1_0000_0000) as u32) * 0x1_0000_0000 + u32::MAX >= value)
        by (nonlinear_arith);
}

/// The register writes that program the compare value: the low word is first
/// set to its maximum so that no early match can occur while the two halves
/// are changed, then the high word, then the real low word.
pub fn compare_writes(value: u64) -> (r: (u32, u32, u32))
    ensures
        r.0 == u32::MAX,
        joined(r.1, r.2) == value,
{
    let (low, high) = split(value);
    (u32::MAX, high, low)
}

} // verus!
