//! Digital-to-analog converter (DAC).
//!
//! MIK32 has two independent 12-bit DAC channels. DAC0 is routed to P1.12 and
//! DAC1 is routed to P1.13. Each channel has a single-word input buffer. The
//! hardware exposes buffer-ready signals to EPIC and DMA. This module holds
//! the checked sample and calibration values, the divider selection of the
//! sample clock, the `CFG` register encodings, the DMA configuration and the
//! decisions of the write, flush and DMA completion paths.

use vstd::prelude::*;
use crate::clock::Hertz;
use crate::dma::Error as DmaError;
use crate::epic::Interrupt;
use crate::gpio::{Analog, Pin};
use crate::nb::NbError;

verus! {

/// DAC resolution in bits.
pub const RESOLUTION_BITS: u8 = 12;

/// Largest value accepted by a DAC channel.
pub const MAX_CODE: u16 = 0x0fff;

/// Maximum documented DAC sample rate, in hertz.
pub const MAX_FREQUENCY_HZ: u32 = 1_000_000;

/// Maximum documented DAC sample rate.
pub fn max_frequency() -> (r: Hertz)
    ensures
        r.0 == MAX_FREQUENCY_HZ,
{
    Hertz(MAX_FREQUENCY_HZ)
}

/// Divider suitable for a 32 MHz DAC input clock and the documented 1 MHz limit.
pub const DEFAULT_DIVIDER: u8 = 31;

/// Default number of readiness polls performed during initialization.
pub const DEFAULT_READY_TIMEOUT: u32 = 500_000;

/// `CFG.EN`: power up the converter.
pub const CFG_ENABLE: u32 = 1;

/// `CFG.RESN`: release the active-low reset.
pub const CFG_RESET_RELEASE: u32 = 2;

/// Position of the eight-bit `CFG.DIV` field.
pub const CFG_DIV_SHIFT: u32 = 2;

/// Mask of the `CFG.DIV` field.
pub const CFG_DIV_MASK: u32 = 0x3fc;

/// `CFG.EXTEN`: use the external (calibrated) reference.
pub const CFG_EXTERNAL_REFERENCE: u32 = 0x400;

/// `CFG.EXTPAD`: take the external reference from the P1.11 pad.
pub const CFG_EXTERNAL_REFERENCE_PIN: u32 = 0x800;

/// A value which is guaranteed to fit into the 12-bit DAC data register.
#[derive(Clone, Copy, Debug, Default, PartialEq, Eq, PartialOrd, Ord, Structural)]
pub struct Code(u16);

impl View for Code {
    type V = u16;

    closed spec fn view(&self) -> u16 {
        self.0
    }
}

impl Code {
    #[verifier::type_invariant]
    spec fn fits(self) -> bool {
        self.0 <= MAX_CODE
    }

    /// Creates a checked 12-bit DAC code.
    pub fn new(value: u16) -> (r: Option<Self>)
        ensures
            value <= MAX_CODE ==> r is Some && r->Some_0@ == value,
            value > MAX_CODE ==> r is None,
    {
        if value <= MAX_CODE {
            Some(Code(value))
        } else {
            None
        }
    }

    /// Creates a DAC code, clamping values above [`MAX_CODE`].
    pub fn saturating(value: u16) -> (r: Self)
        ensures
            r@ == (if value > MAX_CODE {
                MAX_CODE
            } else {
                value
            }),
    {
        Code(
            if value > MAX_CODE {
                MAX_CODE
            } else {
                value
            },
        )
    }

    /// The value.
    pub fn get(self) -> (r: u16)
        ensures
            r == self@,
            r <= MAX_CODE,
    {
        proof {
            use_type_invariant(&self);
        }
        self.0
    }

    /// The code 0.
    pub fn zero() -> (r: Self)
        ensures
            r@ == 0,
    {
        Code(0)
    }

    /// The code [`MAX_CODE`].
    pub fn max() -> (r: Self)
        ensures
            r@ == MAX_CODE,
    {
        Code(MAX_CODE)
    }
}

impl From<u8> for Code {
    fn from(value: u8) -> (r: Self)
        ensures
            r@ == value as u16,
    {
        Code(value as u16)
    }
}

impl TryFrom<u16> for Code {
    type Error = ValueOutOfRange;

    fn try_from(value: u16) -> (r: Result<Self, Self::Error>)
        ensures
            value <= MAX_CODE ==> r is Ok && r->Ok_0@ == value,
            value > MAX_CODE ==> r == Err::<Code, ValueOutOfRange>(ValueOutOfRange(value)),
    {
        match Code::new(value) {
            Some(code) => Ok(code),
            None => Err(ValueOutOfRange(value)),
        }
    }
}

impl vstd::std_specs::convert::FromSpecImpl<u8> for Code {
    open spec fn obeys_from_spec() -> bool {
        true
    }

    closed spec fn from_spec(v: u8) -> Self {
        Code(v as u16)
    }
}

impl vstd::std_specs::convert::TryFromSpecImpl<u16> for Code {
    open spec fn obeys_try_from_spec() -> bool {
        true
    }

    closed spec fn try_from_spec(v: u16) -> Result<Self, ValueOutOfRange> {
        if v <= MAX_CODE {
            Ok(Code(v))
        } else {
            Err(ValueOutOfRange(v))
        }
    }
}

impl From<Code> for u16 {
    fn from(value: Code) -> (r: u16)
        ensures
            r == value@,
    {
        value.get()
    }
}

impl vstd::std_specs::convert::FromSpecImpl<Code> for u16 {
    open spec fn obeys_from_spec() -> bool {
        true
    }

    open spec fn from_spec(v: Code) -> u16 {
        v@
    }
}

/// Error returned when a value does not fit into 12 bits.
#[derive(Clone, Copy, Debug, PartialEq, Eq, Structural)]
pub struct ValueOutOfRange(pub u16);

/// A four-bit calibration coefficient.
#[derive(Clone, Copy, Debug, PartialEq, Eq, Structural)]
pub struct CalibrationCoefficient(u8);

impl View for CalibrationCoefficient {
    type V = u8;

    closed spec fn view(&self) -> u8 {
        self.0
    }
}

impl CalibrationCoefficient {
    #[verifier::type_invariant]
    spec fn fits(self) -> bool {
        self.0 <= 0x0f
    }

    pub fn new(value: u8) -> (r: Option<Self>)
        ensures
            value <= 0x0f ==> r is Some && r->Some_0@ == value,
            value > 0x0f ==> r is None,
    {
        if value <= 0x0f {
            Some(CalibrationCoefficient(value))
        } else {
            None
        }
    }

    pub fn get(self) -> (r: u8)
        ensures
            r == self@,
            r <= 0x0f,
    {
        proof {
            use_type_invariant(&self);
        }
        self.0
    }
}

impl Default for CalibrationCoefficient {
    fn default() -> (r: Self)
        ensures
            r@ == 8,
    {
        CalibrationCoefficient(8)
    }
}

impl TryFrom<u8> for CalibrationCoefficient {
    type Error = CalibrationOutOfRange;

    fn try_from(value: u8) -> (r: Result<Self, Self::Error>)
        ensures
            value <= 0x0f ==> r is Ok && r->Ok_0@ == value,
            value > 0x0f ==> r == Err::<CalibrationCoefficient, CalibrationOutOfRange>(
                CalibrationOutOfRange(value),
            ),
    {
        match CalibrationCoefficient::new(value) {
            Some(c) => Ok(c),
            None => Err(CalibrationOutOfRange(value)),
        }
    }
}

impl vstd::std_specs::convert::TryFromSpecImpl<u8> for CalibrationCoefficient {
    open spec fn obeys_try_from_spec() -> bool {
        true
    }

    closed spec fn try_from_spec(v: u8) -> Result<Self, CalibrationOutOfRange> {
        if v <= 0x0f {
            Ok(CalibrationCoefficient(v))
        } else {
            Err(CalibrationOutOfRange(v))
        }
    }
}

/// Error returned when a reference calibration coefficient does not fit into four bits.
#[derive(Clone, Copy, Debug, PartialEq, Eq, Structural)]
pub struct CalibrationOutOfRange(pub u8);

/// Error returned when a DAC clock cannot produce the requested sample rate.
#[derive(Clone, Copy, Debug, PartialEq, Eq, Structural)]
pub enum FrequencyError {
    /// The supplied `FIN` clock is zero.
    InputClockZero,
    /// The requested rate exceeds the documented hardware limit.
    FrequencyTooHigh { requested: Hertz, maximum: Hertz },
    /// The requested rate needs a divider larger than the eight-bit field.
    FrequencyTooLow { requested: Hertz, minimum: Hertz },
}

/// DAC initialization error.
#[derive(Clone, Copy, Debug, PartialEq, Eq, Structural)]
pub enum InitError {
    /// The input register did not become ready after reset was released.
    ReadyTimeout,
}

/// DAC operation error.
#[derive(Clone, Copy, Debug, PartialEq, Eq, Structural)]
pub enum Error {
    /// An output value was requested while the DAC was disabled.
    Disabled,
}

/// Error returned by a bounded flush.
#[derive(Clone, Copy, Debug, PartialEq, Eq, Structural)]
pub enum FlushError {
    /// The DAC is disabled.
    Disabled,
    /// The input value was not transferred into the DAC before timeout.
    Timeout,
}

/// Error returned by DAC DMA writes.
#[derive(Clone, Copy, Debug, PartialEq, Eq, Structural)]
pub enum DmaWriteError {
    /// The DAC is disabled.
    Disabled,
    /// A buffer element does not fit in the 12-bit DAC input register.
    ValueOutOfRange { index: usize, value: u16 },
    /// The DMA buffer is empty.
    EmptyBuffer,
    /// The DMA transfer length does not fit in the hardware counter.
    TransferTooLong,
    /// The DMA channel did not complete within the requested timeout.
    DmaTimeout,
    /// DMA reported a bus error.
    Bus,
    /// The DMA channel is not supported by the controller.
    InvalidChannel,
    /// DMA completed, but the final value was not transferred into the DAC
    /// within the requested timeout.
    ReadyTimeout,
}

/// The DAC write error for a DMA error.
pub open spec fn spec_from_dma(error: DmaError) -> DmaWriteError {
    match error {
        DmaError::EmptyBuffer => DmaWriteError::EmptyBuffer,
        DmaError::TransferTooLong => DmaWriteError::TransferTooLong,
        DmaError::Timeout => DmaWriteError::DmaTimeout,
        DmaError::Bus => DmaWriteError::Bus,
        DmaError::InvalidChannel => DmaWriteError::InvalidChannel,
    }
}

impl From<DmaError> for DmaWriteError {
    fn from(error: DmaError) -> (r: Self)
        ensures
            r == spec_from_dma(error),
    {
        match error {
            DmaError::EmptyBuffer => DmaWriteError::EmptyBuffer,
            DmaError::TransferTooLong => DmaWriteError::TransferTooLong,
            DmaError::Timeout => DmaWriteError::DmaTimeout,
            DmaError::Bus => DmaWriteError::Bus,
            DmaError::InvalidChannel => DmaWriteError::InvalidChannel,
        }
    }
}

impl vstd::std_specs::convert::FromSpecImpl<DmaError> for DmaWriteError {
    open spec fn obeys_from_spec() -> bool {
        true
    }

    open spec fn from_spec(v: DmaError) -> Self {
        spec_from_dma(v)
    }
}

/// Coefficients of the shared calibrated voltage and current references.
#[derive(Clone, Copy, Debug, PartialEq, Eq, Structural)]
pub struct Calibration {
    pub voltage: CalibrationCoefficient,
    pub current: CalibrationCoefficient,
}

impl Default for Calibration {
    fn default() -> (r: Self)
        ensures
            r.voltage@ == 8,
            r.current@ == 8,
    {
        Calibration { voltage: CalibrationCoefficient(8), current: CalibrationCoefficient(8) }
    }
}

/// Fixed internal 1.2 V reference.
#[derive(Clone, Copy, Debug, Default)]
pub struct InternalReference;

/// External reference voltage connected to P1.11.
///
/// Owning the pin prevents safe code from repurposing it while a DAC borrows
/// this reference.
pub struct ExternalReference {
    pin: Pin<1, 11, Analog>,
}

impl ExternalReference {
    /// The pin that this reference holds.
    pub closed spec fn pin(&self) -> Pin<1, 11, Analog> {
        self.pin
    }

    /// Takes ownership of P1.11 as the reference input.
    pub fn new(pin: Pin<1, 11, Analog>) -> (r: Self)
        ensures
            r.pin() == pin,
    {
        ExternalReference { pin }
    }

    /// Gives the reference pin back.
    pub fn release(self) -> (r: Pin<1, 11, Analog>)
        ensures
            r == self.pin(),
    {
        self.pin
    }
}

/// Marker trait implemented only by the reference sources.
pub trait Sealed {}

/// A reference source accepted by a DAC channel.
pub trait ReferenceSource: Sealed {
    /// The reference selection bits of `CFG`.
    const CONFIG_BITS: u32;
}

impl Sealed for InternalReference {}

impl ReferenceSource for InternalReference {
    const CONFIG_BITS: u32 = 0;
}

impl Sealed for ExternalReference {}

impl ReferenceSource for ExternalReference {
    const CONFIG_BITS: u32 = CFG_EXTERNAL_REFERENCE | CFG_EXTERNAL_REFERENCE_PIN;
}

impl<'a> Sealed for &'a ExternalReference {}

impl<'a> ReferenceSource for &'a ExternalReference {
    const CONFIG_BITS: u32 = CFG_EXTERNAL_REFERENCE | CFG_EXTERNAL_REFERENCE_PIN;
}

/// The reference selection bits for the shared calibrated reference.
pub const CALIBRATED_REFERENCE_BITS: u32 = CFG_EXTERNAL_REFERENCE;

/// Initial DAC channel configuration.
#[derive(Clone, Copy, Debug, PartialEq, Eq, Structural)]
pub struct Config {
    /// Raw divider value: the DAC clock is `FIN / (divider + 1)`.
    ///
    /// The chip documentation does not identify the clock domain supplying
    /// `FIN`, so the caller must derive this value from a known DAC input clock.
    /// The resulting frequency must not exceed [`MAX_FREQUENCY`].
    pub divider: u8,
    /// Value queued during initialization.
    pub initial_value: Code,
    /// Maximum number of unsuccessful readiness polls during initialization.
    pub ready_timeout: u32,
}

impl Default for Config {
    fn default() -> (r: Self)
        ensures
            r.divider == DEFAULT_DIVIDER,
            r.initial_value@ == 0,
            r.ready_timeout == DEFAULT_READY_TIMEOUT,
    {
        Config { divider: DEFAULT_DIVIDER, initial_value: Code(0), ready_timeout: DEFAULT_READY_TIMEOUT }
    }
}

/// `ceil(a / b)`.
pub open spec fn ceil_div(a: nat, b: nat) -> nat {
    ((a + b - 1) / b as int) as nat
}

/// The divider selected for `requested` from `input`, or the error.
pub open spec fn spec_divider(input: u32, requested: u32) -> Result<u8, FrequencyError> {
    if input == 0 {
        Err(FrequencyError::InputClockZero)
    } else if requested > MAX_FREQUENCY_HZ {
        Err(
            FrequencyError::FrequencyTooHigh {
                requested: Hertz(requested),
                maximum: Hertz(MAX_FREQUENCY_HZ),
            },
        )
    } else if requested == 0 || ceil_div(input as nat, requested as nat) > 256 {
        Err(
            FrequencyError::FrequencyTooLow {
                requested: Hertz(requested),
                minimum: Hertz(ceil_div(input as nat, 256) as u32),
            },
        )
    } else {
        Ok((ceil_div(input as nat, requested as nat) - 1) as u8)
    }
}

/// The DAC clock for a raw divider: `FIN / (divider + 1)`.
pub open spec fn spec_clock(input: u32, divider: u8) -> u32 {
    (input / (divider + 1) as u32) as u32
}

fn div_ceil(a: u32, b: u32) -> (r: u32)
    requires
        b > 0,
    ensures
        r == ceil_div(a as nat, b as nat),
{
    let q = a / b;
    assert(a % b != 0 ==> q < u32::MAX) by (nonlinear_arith)
        requires
            b > 0,
            q == a / b,
    ;
    let r = if a % b != 0 {
        q + 1
    } else {
        q
    };
    assert(r == (a + b - 1) / (b as int)) by (nonlinear_arith)
        requires
            b > 0,
            q == a / b,
            r == (if a % b != 0 {
                q + 1
            } else {
                q as int
            }),
    ;
    r
}

impl Config {
    /// Selects the smallest divider that does not exceed `requested`.
    ///
    /// `input_clock` is the DAC `FIN` clock. The reference documentation does
    /// not identify its RCC domain, so callers must supply a frequency whose
    /// origin is known for their hardware configuration.
    pub fn frequency(self, input_clock: Hertz, requested: Hertz) -> (r: Result<Self, FrequencyError>)
        ensures
            match spec_divider(input_clock.0, requested.0) {
                Ok(d) => r == Ok::<Config, FrequencyError>(Config { divider: d, ..self }),
                Err(e) => r == Err::<Config, FrequencyError>(e),
            },
    {
        match calculate_divider(input_clock, requested) {
            Ok(divider) => Ok(Config { divider, ..self }),
            Err(error) => Err(error),
        }
    }

    pub fn divider(self, divider: u8) -> (r: Self)
        ensures
            r == (Config { divider, ..self }),
    {
        Config { divider, ..self }
    }

    pub fn initial_value(self, value: Code) -> (r: Self)
        ensures
            r == (Config { initial_value: value, ..self }),
    {
        Config { initial_value: value, ..self }
    }

    /// Sets the initialization readiness timeout in polling iterations.
    ///
    /// A value of zero still performs one readiness check.
    pub fn ready_timeout(self, polls: u32) -> (r: Self)
        ensures
            r == (Config { ready_timeout: polls, ..self }),
    {
        Config { ready_timeout: polls, ..self }
    }

    /// Validates the raw divider and returns the resulting DAC frequency.
    pub fn validate_frequency(&self, input_clock: Hertz) -> (r: Result<Hertz, FrequencyError>)
        ensures
            r == validate_divider_spec(input_clock.0, self.divider),
    {
        validate_divider(input_clock, self.divider)
    }
}

/// The frequency of a raw divider, or why it is not acceptable.
pub open spec fn validate_divider_spec(input: u32, divider: u8) -> Result<Hertz, FrequencyError> {
    if input == 0 {
        Err(FrequencyError::InputClockZero)
    } else if spec_clock(input, divider) > MAX_FREQUENCY_HZ {
        Err(
            FrequencyError::FrequencyTooHigh {
                requested: Hertz(spec_clock(input, divider)),
                maximum: Hertz(MAX_FREQUENCY_HZ),
            },
        )
    } else {
        Ok(Hertz(spec_clock(input, divider)))
    }
}

/// Selects the smallest divider whose sample rate does not exceed
/// `requested`: `ceil(FIN / requested) - 1`, which must fit the eight-bit
/// field. Rates above 1 MHz, a zero rate and a zero input clock are refused.
pub fn calculate_divider(input_clock: Hertz, requested: Hertz) -> (r: Result<u8, FrequencyError>)
    ensures
        r == spec_divider(input_clock.0, requested.0),
{
    if input_clock.0 == 0 {
        return Err(FrequencyError::InputClockZero);
    }
    if requested.0 > MAX_FREQUENCY_HZ {
        return Err(
            FrequencyError::FrequencyTooHigh { requested, maximum: Hertz(MAX_FREQUENCY_HZ) },
        );
    }
    let minimum = Hertz(div_ceil(input_clock.0, 256));
    if requested.0 == 0 {
        return Err(FrequencyError::FrequencyTooLow { requested, minimum });
    }
    let divisor = div_ceil(input_clock.0, requested.0);
    if divisor > 256 {
        return Err(FrequencyError::FrequencyTooLow { requested, minimum });
    }
    assert(divisor >= 1) by (nonlinear_arith)
        requires
            divisor == (input_clock.0 + requested.0 - 1) / (requested.0 as int),
            input_clock.0 > 0,
            requested.0 > 0,
    ;
    Ok((divisor - 1) as u8)
}

/// Checks a raw divider against the documented maximum rate.
pub fn validate_divider(input_clock: Hertz, divider: u8) -> (r: Result<Hertz, FrequencyError>)
    ensures
        r == validate_divider_spec(input_clock.0, divider),
{
    if input_clock.0 == 0 {
        return Err(FrequencyError::InputClockZero);
    }
    let frequency = clock_from_divider(input_clock, divider);
    if frequency.0 > MAX_FREQUENCY_HZ {
        return Err(
            FrequencyError::FrequencyTooHigh {
                requested: frequency,
                maximum: Hertz(MAX_FREQUENCY_HZ),
            },
        );
    }
    Ok(frequency)
}

/// The DAC clock produced by a raw divider.
pub fn clock_from_divider(input_clock: Hertz, divider: u8) -> (r: Hertz)
    ensures
        r.0 == spec_clock(input_clock.0, divider),
{
    Hertz(input_clock.0 / (divider as u32 + 1))
}

/// Whether divider `e` gives a rate above `requested`: `FIN / (e + 1)`
/// exceeds it.
pub open spec fn too_fast(input: u32, requested: u32, e: nat) -> bool {
    (e + 1) * requested < input
}

/// The selected divider is the smallest whose exact rate `FIN / (d + 1)`
/// does not exceed the request: `(d + 1) * requested >= FIN`, and every
/// smaller divider would be too fast. Its integer rate therefore does not
/// exceed the request either.
pub proof fn lemma_divider_is_smallest_not_above(input: u32, requested: u32)
    requires
        spec_divider(input, requested) is Ok,
    ensures
        ({
            let d = spec_divider(input, requested)->Ok_0;
            &&& (d + 1) * requested >= input
            &&& spec_clock(input, d) <= requested
            &&& forall|e: nat| e < d ==> #[trigger] too_fast(input, requested, e)
        }),
{
    let d = spec_divider(input, requested)->Ok_0;
    let c = ceil_div(input as nat, requested as nat);
    assert(c >= 1) by (nonlinear_arith)
        requires
            c == (input + requested - 1) / (requested as int),
            requested > 0,
            input > 0,
    ;
    assert(d + 1 == c);
    assert(c * requested >= input && (c - 1) * requested < input) by (nonlinear_arith)
        requires
            c == (input + requested - 1) / (requested as int),
            requested > 0,
            input > 0,
    ;
    assert((input as int) / (c as int) <= requested) by (nonlinear_arith)
        requires
            c * requested >= input,
            c > 0,
    ;
    assert forall|e: nat| e < d implies #[trigger] too_fast(input, requested, e) by {
        assert((e + 1) * requested <= (c - 1) * requested) by (nonlinear_arith)
            requires
                e + 1 <= c - 1,
        ;
    }
}

/// The `CFG` value that programs the divider and the reference source: the
/// divider field is replaced and the reference bits are added.
pub fn cfg_configure(register: u32, divider: u8, reference_bits: u32) -> (r: u32)
    ensures
        r == (register & !CFG_DIV_MASK) | ((divider as u32) << CFG_DIV_SHIFT) | reference_bits,
{
    (register & !CFG_DIV_MASK) | ((divider as u32) << CFG_DIV_SHIFT) | reference_bits
}

/// The divider held in a `CFG` value.
pub open spec fn cfg_divider(register: u32) -> u32 {
    (register & CFG_DIV_MASK) >> CFG_DIV_SHIFT
}

/// The `CFG` value with a new divider and everything else kept.
pub fn cfg_set_divider(register: u32, divider: u8) -> (r: u32)
    ensures
        r == (register & !CFG_DIV_MASK) | ((divider as u32) << CFG_DIV_SHIFT),
        cfg_divider(r) == divider,
        r & !CFG_DIV_MASK == register & !CFG_DIV_MASK,
{
    let d = divider as u32;
    let r = (register & !CFG_DIV_MASK) | (d << CFG_DIV_SHIFT);
    assert(((r & 0x3fc) >> 2) == d && r & !0x3fcu32 == register & !0x3fcu32) by (bit_vector)
        requires
            r == (register & !0x3fcu32) | (d << 2),
            d <= 255,
    ;
    r
}

/// The `CFG` value that powers up the converter and releases its reset.
pub fn cfg_enable(register: u32) -> (r: u32)
    ensures
        r == register | CFG_ENABLE | CFG_RESET_RELEASE,
        cfg_is_enabled(r),
        cfg_divider(r) == cfg_divider(register),
{
    let r = register | CFG_ENABLE | CFG_RESET_RELEASE;
    assert(r & 1 != 0 && (r & 0x3fc) >> 2 == (register & 0x3fc) >> 2) by (bit_vector)
        requires
            r == register | 1u32 | 2u32,
    ;
    r
}

/// The `CFG` value that powers down the converter and asserts its reset.
pub fn cfg_disable(register: u32) -> (r: u32)
    ensures
        r == register & !(CFG_ENABLE | CFG_RESET_RELEASE),
        !cfg_is_enabled(r),
        cfg_divider(r) == cfg_divider(register),
{
    let r = register & !(CFG_ENABLE | CFG_RESET_RELEASE);
    assert(r & 1 == 0 && (r & 0x3fc) >> 2 == (register & 0x3fc) >> 2) by (bit_vector)
        requires
            r == register & !(1u32 | 2u32),
    ;
    r
}

/// Whether a `CFG` value has the converter powered up.
pub open spec fn cfg_is_enabled(register: u32) -> bool {
    register & CFG_ENABLE != 0
}

/// Disabling after enabling powers the converter down again and keeps the
/// divider: the rollback of a failed enable.
pub proof fn lemma_disable_undoes_enable(register: u32)
    ensures
        !cfg_is_enabled((register | CFG_ENABLE | CFG_RESET_RELEASE) & !(CFG_ENABLE
            | CFG_RESET_RELEASE)),
        (register | CFG_ENABLE | CFG_RESET_RELEASE) & !(CFG_ENABLE | CFG_RESET_RELEASE) == register
            & !(CFG_ENABLE | CFG_RESET_RELEASE),
{
    assert(((register | 1u32 | 2u32) & !(1u32 | 2u32)) & 1 == 0 && (register | 1u32 | 2u32) & !(1u32
        | 2u32) == register & !(1u32 | 2u32)) by (bit_vector);
}

/// The two DAC channels.
#[derive(Clone, Copy, Debug, PartialEq, Eq, Structural)]
pub enum Channel {
    Dac0,
    Dac1,
}

impl Channel {
    /// The EPIC line that signals the channel's buffer-ready state.
    pub fn interrupt(self) -> (r: Interrupt)
        ensures
            self == Channel::Dac0 ==> r == Interrupt::Dac0,
            self == Channel::Dac1 ==> r == Interrupt::Dac1,
    {
        match self {
            Channel::Dac0 => Interrupt::Dac0,
            Channel::Dac1 => Interrupt::Dac1,
        }
    }

    /// The DMA request number driven by the channel: 10 for DAC0, 11 for DAC1.
    pub fn dma_request(self) -> (r: u8)
        ensures
            self == Channel::Dac0 ==> r == 10,
            self == Channel::Dac1 ==> r == 11,
    {
        match self {
            Channel::Dac0 => 10,
            Channel::Dac1 => 11,
        }
    }
}

/// The DMA configuration that streams half-words from memory into a DAC
/// value register: memory source with increment, half-word sizes and bursts,
/// the channel's request on the destination side and its acknowledge.
pub fn dma_write_config(request: u8) -> (r: u32)
    requires
        request < 32,
    ensures
        r == (1u32 << 3) | (1u32 << 5) | (1u32 << 7) | (1u32 << 9) | (1u32 << 11) | (1u32 << 14) | (
        (request as u32) << 21) | (1u32 << 26),
{
    (1u32 << 3) | (1u32 << 5) | (1u32 << 7) | (1u32 << 9) | (1u32 << 11) | (1u32 << 14) | ((
    request as u32) << 21) | (1u32 << 26)
}

/// The first sample of `buffer` from `from` on that does not fit 12 bits.
pub open spec fn first_out_of_range(buffer: Seq<u16>, from: int) -> Option<int>
    decreases buffer.len() - from,
{
    if from >= buffer.len() {
        None
    } else if buffer[from] > MAX_CODE {
        Some(from)
    } else {
        first_out_of_range(buffer, from + 1)
    }
}

/// Checks a DMA sample buffer and returns its length in bytes: it must be
/// nonempty, every sample must fit 12 bits (the first that does not is
/// reported), and the byte length must fit the 32-bit DMA counter.
pub fn validate_dma_buffer(buffer: &[u16]) -> (r: Result<usize, DmaWriteError>)
    ensures
        buffer@.len() == 0 ==> r == Err::<usize, DmaWriteError>(DmaWriteError::EmptyBuffer),
        buffer@.len() > 0 && first_out_of_range(buffer@, 0) is Some ==> ({
            let i = first_out_of_range(buffer@, 0)->Some_0;
            r == Err::<usize, DmaWriteError>(
                DmaWriteError::ValueOutOfRange { index: i as usize, value: buffer@[i] },
            )
        }),
        buffer@.len() > 0 && first_out_of_range(buffer@, 0) is None && 2 * buffer@.len()
            > u32::MAX ==> r == Err::<usize, DmaWriteError>(DmaWriteError::TransferTooLong),
        buffer@.len() > 0 && first_out_of_range(buffer@, 0) is None && 2 * buffer@.len()
            <= u32::MAX ==> r == Ok::<usize, DmaWriteError>((2 * buffer@.len()) as usize),
{
    if buffer.len() == 0 {
        return Err(DmaWriteError::EmptyBuffer);
    }
    let n = buffer.len();
    let mut i: usize = 0;
    while i < n
        invariant
            n == buffer@.len(),
            i <= n,
            first_out_of_range(buffer@, 0) == first_out_of_range(buffer@, i as int),
        decreases n - i,
    {
        if buffer[i] > MAX_CODE {
            return Err(DmaWriteError::ValueOutOfRange { index: i, value: buffer[i] });
        }
        i = i + 1;
    }
    let length = match n.checked_mul(2) {
        Some(length) => length,
        None => {
            return Err(DmaWriteError::TransferTooLong);
        },
    };
    if length as u64 > u32::MAX as u64 {
        return Err(DmaWriteError::TransferTooLong);
    }
    Ok(length)
}

/// The outcome of a non-blocking write: refused while disabled, would block
/// while the one-word buffer is occupied, else the value is queued.
pub fn try_write_check(enabled: bool, ready: bool) -> (r: Result<(), NbError<Error>>)
    ensures
        !enabled ==> r == Err::<(), NbError<Error>>(NbError::Other(Error::Disabled)),
        enabled && !ready ==> r == Err::<(), NbError<Error>>(NbError::WouldBlock),
        enabled && ready ==> r is Ok,
{
    if !enabled {
        return Err(NbError::Other(Error::Disabled));
    }
    if !ready {
        return Err(NbError::WouldBlock);
    }
    Ok(())
}

/// Whether a blocking write, flush or forced write may proceed.
pub fn enabled_check(enabled: bool) -> (r: Result<(), Error>)
    ensures
        !enabled ==> r == Err::<(), Error>(Error::Disabled),
        enabled ==> r is Ok,
{
    if !enabled {
        return Err(Error::Disabled);
    }
    Ok(())
}

/// The result of enabling the channel from whether its input register
/// became ready in time; on a timeout the driver disables the channel again
/// before reporting the error.
pub fn enable_result(became_ready: bool) -> (r: Result<(), InitError>)
    ensures
        !became_ready ==> r == Err::<(), InitError>(InitError::ReadyTimeout),
        became_ready ==> r is Ok,
{
    if became_ready {
        Ok(())
    } else {
        Err(InitError::ReadyTimeout)
    }
}

/// The checks before a DMA write, in order: the channel must be enabled,
/// then the buffer must pass [`validate_dma_buffer`]; gives the transfer
/// length in bytes.
pub fn dma_write_check(enabled: bool, buffer: &[u16]) -> (r: Result<usize, DmaWriteError>)
    ensures
        !enabled ==> r == Err::<usize, DmaWriteError>(DmaWriteError::Disabled),
        enabled && buffer@.len() == 0 ==> r == Err::<usize, DmaWriteError>(
            DmaWriteError::EmptyBuffer,
        ),
        enabled && buffer@.len() > 0 && first_out_of_range(buffer@, 0) is Some ==> ({
            let i = first_out_of_range(buffer@, 0)->Some_0;
            r == Err::<usize, DmaWriteError>(
                DmaWriteError::ValueOutOfRange { index: i as usize, value: buffer@[i] },
            )
        }),
        enabled && buffer@.len() > 0 && first_out_of_range(buffer@, 0) is None && 2
            * buffer@.len() > u32::MAX ==> r == Err::<usize, DmaWriteError>(
            DmaWriteError::TransferTooLong,
        ),
        enabled && buffer@.len() > 0 && first_out_of_range(buffer@, 0) is None && 2
            * buffer@.len() <= u32::MAX ==> r == Ok::<usize, DmaWriteError>(
            (2 * buffer@.len()) as usize,
        ),
{
    if !enabled {
        return Err(DmaWriteError::Disabled);
    }
    validate_dma_buffer(buffer)
}

/// The result of a bounded flush from whether the channel is enabled and
/// whether the buffer became ready in time.
pub fn flush_timeout_result(enabled: bool, became_ready: bool) -> (r: Result<(), FlushError>)
    ensures
        !enabled ==> r == Err::<(), FlushError>(FlushError::Disabled),
        enabled && !became_ready ==> r == Err::<(), FlushError>(FlushError::Timeout),
        enabled && became_ready ==> r is Ok,
{
    if !enabled {
        return Err(FlushError::Disabled);
    }
    if became_ready {
        Ok(())
    } else {
        Err(FlushError::Timeout)
    }
}

/// Progress of a non-blocking DMA write: DMA completion is sticky, and the
/// write is done once DMA completed and the DAC took the final sample.
#[derive(Clone, Copy, Debug, PartialEq, Eq, Structural)]
pub struct DmaWriteProgress {
    pub dma_done: bool,
}

impl DmaWriteProgress {
    pub fn new() -> (r: Self)
        ensures
            !r.dma_done,
    {
        DmaWriteProgress { dma_done: false }
    }

    /// Whether the DMA channel still has to be polled.
    pub fn needs_dma_poll(&self) -> (r: bool)
        ensures
            r == !self.dma_done,
    {
        !self.dma_done
    }

    /// Records a DMA poll result; a bus error ends the transfer.
    pub fn record_dma_poll(&mut self, poll: Result<bool, DmaError>) -> (r: Result<(), DmaWriteError>)
        requires
            !old(self).dma_done,
        ensures
            poll is Err ==> r == Err::<(), DmaWriteError>(spec_from_dma(poll->Err_0))
                && final(self).dma_done == old(self).dma_done,
            poll is Ok ==> r is Ok && final(self).dma_done == poll->Ok_0,
    {
        match poll {
            Ok(done) => {
                self.dma_done = done;
                Ok(())
            },
            Err(error) => Err(DmaWriteError::from(error)),
        }
    }

    /// Whether the whole write is done, given the DAC readiness.
    pub fn is_done(&self, dac_ready: bool) -> (r: bool)
        ensures
            r == (self.dma_done && dac_ready),
    {
        self.dma_done && dac_ready
    }

    /// The error reported when the wait runs out of polls.
    pub fn timeout_error(&self) -> (r: DmaWriteError)
        ensures
            self.dma_done ==> r == DmaWriteError::ReadyTimeout,
            !self.dma_done ==> r == DmaWriteError::DmaTimeout,
    {
        if self.dma_done {
            DmaWriteError::ReadyTimeout
        } else {
            DmaWriteError::DmaTimeout
        }
    }
}

} // verus!
