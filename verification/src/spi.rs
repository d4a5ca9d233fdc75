//! Blocking 8-bit SPI master: divider selection, configuration checks and
//! the byte schedule of full-duplex transfers.

use vstd::prelude::*;
use crate::clock::Hertz;
use crate::rcc::Clocks;

verus! {

/// The baud rate dividers of the `CONFIG.BAUD_RATE_DIV` field, ascending.
pub open spec fn baud_dividers() -> Seq<u32> {
    seq![4, 8, 16, 32, 64, 128, 256]
}

/// Default number of polls before a wait reports a timeout.
pub const DEFAULT_TIMEOUT: u32 = 100_000;

/// Default transmit FIFO threshold.
pub const DEFAULT_THRESHOLD: u32 = 4;

/// Byte clocked out when only receiving.
pub const FILL_BYTE: u8 = 0xff;

/// Chip select delays, in SPI clock periods.
#[derive(Debug, Clone, Copy, PartialEq, Eq, Structural)]
pub struct Delays {
    pub init: u8,
    pub after: u8,
    pub between: u8,
}

impl Default for Delays {
    fn default() -> (r: Self)
        ensures
            r == (Delays { init: 0, after: 0, between: 0 }),
    {
        Delays { init: 0, after: 0, between: 0 }
    }
}

/// Clock idle level.
#[derive(Debug, Clone, Copy, PartialEq, Eq, Structural)]
pub enum Polarity {
    IdleLow,
    IdleHigh,
}

/// Clock edge on which data is captured.
#[derive(Debug, Clone, Copy, PartialEq, Eq, Structural)]
pub enum Phase {
    CaptureOnFirstTransition,
    CaptureOnSecondTransition,
}

/// SPI mode: polarity and phase.
#[derive(Debug, Clone, Copy, PartialEq, Eq, Structural)]
pub struct Mode {
    pub polarity: Polarity,
    pub phase: Phase,
}

/// SPI mode 0: idle low, capture on the first edge.
pub fn mode_0() -> (r: Mode)
    ensures
        r == (Mode { polarity: Polarity::IdleLow, phase: Phase::CaptureOnFirstTransition }),
{
    Mode { polarity: Polarity::IdleLow, phase: Phase::CaptureOnFirstTransition }
}

impl Mode {
    /// The `CLK_POL` and `CLK_PH` bits.
    pub fn bits(self) -> (r: (bool, bool))
        ensures
            r.0 == (self.polarity == Polarity::IdleHigh),
            r.1 == (self.phase == Phase::CaptureOnSecondTransition),
    {
        (
            match self.polarity {
                Polarity::IdleLow => false,
                Polarity::IdleHigh => true,
            },
            match self.phase {
                Phase::CaptureOnFirstTransition => false,
                Phase::CaptureOnSecondTransition => true,
            },
        )
    }
}

/// SPI configuration.
#[derive(Debug, Clone, Copy, PartialEq, Eq, Structural)]
pub struct Config {
    pub frequency: Hertz,
    pub mode: Mode,
    pub timeout: u32,
    pub threshold: u32,
    pub delays: Delays,
}

impl Default for Config {
    fn default() -> (r: Self)
        ensures
            r.frequency.0 == 8_000_000,
            r.mode == (Mode { polarity: Polarity::IdleLow, phase: Phase::CaptureOnFirstTransition }),
            r.timeout == DEFAULT_TIMEOUT,
            r.threshold == DEFAULT_THRESHOLD,
            r.delays == (Delays { init: 0, after: 0, between: 0 }),
    {
        Config {
            frequency: Hertz(8_000_000),
            mode: mode_0(),
            timeout: DEFAULT_TIMEOUT,
            threshold: DEFAULT_THRESHOLD,
            delays: Delays::default(),
        }
    }
}

/// SPI errors.
#[derive(Debug, Clone, Copy, PartialEq, Eq, Structural)]
pub enum Error {
    InvalidFrequency,
    InvalidTimeout,
    InvalidThreshold,
    Timeout,
    ModeFault,
    RxOverflow,
}

/// The generic error categories of the embedded SPI interface.
#[derive(Debug, Clone, Copy, PartialEq, Eq, Structural)]
pub enum ErrorKind {
    Overrun,
    ModeFault,
    Other,
}

impl Error {
    /// The generic category of this error.
    pub fn kind(&self) -> (r: ErrorKind)
        ensures
            *self == Error::ModeFault ==> r == ErrorKind::ModeFault,
            *self == Error::RxOverflow ==> r == ErrorKind::Overrun,
            *self != Error::ModeFault && *self != Error::RxOverflow ==> r == ErrorKind::Other,
    {
        match self {
            Error::Timeout => ErrorKind::Other,
            Error::ModeFault => ErrorKind::ModeFault,
            Error::RxOverflow => ErrorKind::Overrun,
            Error::InvalidFrequency | Error::InvalidTimeout | Error::InvalidThreshold => {
                ErrorKind::Other
            },
        }
    }
}

/// Marker trait implemented only by the SPI instances of this crate.
pub trait Sealed {}

/// Index of the first divider from `from` on that brings the clock down to
/// `requested`.
pub open spec fn first_fitting(apb: u32, requested: u32, from: int) -> Option<int>
    decreases 7 - from,
{
    if from >= 7 || from < 0 {
        None
    } else if apb / baud_dividers()[from] <= requested {
        Some(from)
    } else {
        first_fitting(apb, requested, from + 1)
    }
}

/// The smallest supported divider whose clock does not exceed the request.
pub open spec fn spec_select_divider(apb: u32, requested: u32) -> Option<u32> {
    match first_fitting(apb, requested, 0) {
        Some(i) => Some(baud_dividers()[i]),
        None => None,
    }
}

/// Selects the smallest supported divider whose SPI clock does not exceed
/// `requested_frequency`; none fits when even 256 is too small.
pub fn select_divider(apb_frequency: u32, requested_frequency: u32) -> (r: Option<u32>)
    ensures
        r == spec_select_divider(apb_frequency, requested_frequency),
{
    let dividers: [u32; 7] = [4, 8, 16, 32, 64, 128, 256];
    assert(dividers@ =~= baud_dividers());
    let mut i: usize = 0;
    while i < 7
        invariant
            dividers@ == baud_dividers(),
            i <= 7,
            first_fitting(apb_frequency, requested_frequency, 0) == first_fitting(
                apb_frequency,
                requested_frequency,
                i as int,
            ),
        decreases 7 - i,
    {
        let divider = dividers[i];
        if apb_frequency / divider <= requested_frequency {
            return Some(divider);
        }
        i = i + 1;
    }
    None
}

/// The selected divider is the smallest fitting one: its clock does not
/// exceed the request, and every smaller supported divider would be faster.
pub proof fn lemma_selected_divider_is_smallest_fitting(apb: u32, requested: u32)
    requires
        spec_select_divider(apb, requested) is Some,
    ensures
        ({
            let i = first_fitting(apb, requested, 0)->Some_0;
            &&& 0 <= i < 7
            &&& apb / baud_dividers()[i] <= requested
            &&& forall|j: int| 0 <= j < i ==> apb / #[trigger] baud_dividers()[j] > requested
        }),
{
    lemma_first_fitting(apb, requested, 0);
}

/// A request below the slowest supported rate, `apb / 256`, gets no divider:
/// every divider would run the bus faster than requested.
pub proof fn lemma_request_below_slowest_rate_is_refused(apb: u32, requested: u32)
    requires
        requested < apb / 256,
    ensures
        spec_select_divider(apb, requested) is None,
{
    assert(apb / 4 >= apb / 256 && apb / 8 >= apb / 256 && apb / 16 >= apb / 256 && apb / 32
        >= apb / 256 && apb / 64 >= apb / 256 && apb / 128 >= apb / 256) by (nonlinear_arith);
    reveal_with_fuel(first_fitting, 8);
}

proof fn lemma_first_fitting(apb: u32, requested: u32, from: int)
    requires
        0 <= from <= 7,
        first_fitting(apb, requested, from) is Some,
    ensures
        ({
            let i = first_fitting(apb, requested, from)->Some_0;
            &&& from <= i < 7
            &&& apb / baud_dividers()[i] <= requested
            &&& forall|j: int| from <= j < i ==> apb / #[trigger] baud_dividers()[j] > requested
        }),
    decreases 7 - from,
{
    if from < 7 && !(apb / baud_dividers()[from] <= requested) {
        lemma_first_fitting(apb, requested, from + 1);
    }
}

/// The `BAUD_RATE_DIV` field value of a supported divider: `log2(divider) - 1`
/// (4 → 1, …, 256 → 7); any other value selects division by 256, as the
/// largest divider.
pub fn divider_bits(divider: u32) -> (r: u8)
    ensures
        divider == 4 ==> r == 1,
        divider == 8 ==> r == 2,
        divider == 16 ==> r == 3,
        divider == 32 ==> r == 4,
        divider == 64 ==> r == 5,
        divider == 128 ==> r == 6,
        divider != 4 && divider != 8 && divider != 16 && divider != 32 && divider != 64 && divider
            != 128 ==> r == 7,
{
    match divider {
        4 => 1,
        8 => 2,
        16 => 3,
        32 => 4,
        64 => 5,
        128 => 6,
        _ => 7,
    }
}

/// The divider for a configuration on the given clock tree, or why the
/// configuration is refused: the frequency, timeout and threshold must be
/// nonzero and some divider must bring the APB_P clock down to the request.
pub fn configure(clocks: &Clocks, config: &Config) -> (r: Result<u32, Error>)
    ensures
        config.frequency.0 == 0 ==> r == Err::<u32, Error>(Error::InvalidFrequency),
        config.frequency.0 != 0 && config.timeout == 0 ==> r == Err::<u32, Error>(
            Error::InvalidTimeout,
        ),
        config.frequency.0 != 0 && config.timeout != 0 && config.threshold == 0 ==> r == Err::<
            u32,
            Error,
        >(Error::InvalidThreshold),
        config.frequency.0 != 0 && config.timeout != 0 && config.threshold != 0 ==> r == (match spec_select_divider(
            clocks.apb_p_hz(),
            config.frequency.0,
        ) {
            Some(d) => Ok::<u32, Error>(d),
            None => Err::<u32, Error>(Error::InvalidFrequency),
        }),
{
    if config.frequency.0 == 0 {
        return Err(Error::InvalidFrequency);
    }
    if config.timeout == 0 {
        return Err(Error::InvalidTimeout);
    }
    if config.threshold == 0 {
        return Err(Error::InvalidThreshold);
    }
    match select_divider(clocks.apb_p_clk().0, config.frequency.0) {
        Some(d) => Ok(d),
        None => Err(Error::InvalidFrequency),
    }
}

/// The error, if any, of one status poll: mode fault first, then receive
/// overflow.
pub fn status_error(mode_fail: bool, rx_overflow: bool) -> (r: Option<Error>)
    ensures
        mode_fail ==> r == Some(Error::ModeFault),
        !mode_fail && rx_overflow ==> r == Some(Error::RxOverflow),
        !mode_fail && !rx_overflow ==> r is None,
{
    if mode_fail {
        Some(Error::ModeFault)
    } else if rx_overflow {
        Some(Error::RxOverflow)
    } else {
        None
    }
}

/// Number of bytes clocked by a full-duplex transfer: the longer of the two
/// buffers.
pub fn transfer_length(read_len: usize, write_len: usize) -> (r: usize)
    ensures
        r == if read_len >= write_len {
            read_len
        } else {
            write_len
        },
{
    if read_len >= write_len {
        read_len
    } else {
        write_len
    }
}

/// The byte sent at position `i` of a full-duplex transfer: the write buffer
/// while it lasts, then the fill byte.
pub fn transfer_tx_byte(write: &[u8], i: usize) -> (r: u8)
    ensures
        i < write@.len() ==> r == write@[i as int],
        i >= write@.len() ==> r == FILL_BYTE,
{
    if i < write.len() {
        write[i]
    } else {
        FILL_BYTE
    }
}

} // verus!
