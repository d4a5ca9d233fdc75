//! USART: configuration checks, the baud rate divisor, the decoding of the
//! receive status, the word-size rules of 7/8-bit and 9-bit frames, and the
//! DMA channel configurations.

use vstd::prelude::*;
use crate::dma::Error as DmaError;
use crate::gpio::{Func2Mode, Func3Mode, Pin};
use crate::nb::NbError;

verus! {

/// Default number of polls while waiting for the transmitter and receiver
/// to acknowledge enabling.
pub const DEFAULT_INIT_TIMEOUT: u32 = 100_000;

/// Largest value of a 9-bit word.
pub const MAX_9BIT_WORD: u16 = 0x01ff;

/// Smallest divisor: the peripheral oversamples by 16.
pub const MIN_DIVISOR: u64 = 16;

#[derive(Debug, Clone, Copy, PartialEq, Eq, Structural)]
pub enum WordLength {
    DataBits7,
    DataBits8,
    DataBits9,
}

#[derive(Debug, Clone, Copy, PartialEq, Eq, Structural)]
pub enum DuplexMode {
    Half,
    Full,
}

#[derive(Debug, Clone, Copy, PartialEq, Eq, Structural)]
pub enum SyncMode {
    Async,
    Sync,
}

#[derive(Debug, Clone, Copy, PartialEq, Eq, Structural)]
pub enum ClockPolarity {
    IdleLow,
    IdleHigh,
}

#[derive(Debug, Clone, Copy, PartialEq, Eq, Structural)]
pub enum ClockPhase {
    FirstEdge,
    SecondEdge,
}

/// Parity of a frame.
#[derive(Debug, Clone, Copy, PartialEq, Eq, Structural)]
pub enum Parity {
    NoParity,
    Even,
    Odd,
}

#[derive(Debug, Clone, Copy, PartialEq, Eq, Structural)]
pub enum StopBits {
    Stop1,
    Stop2,
}

/// Which directions use DMA requests.
#[derive(Debug, Clone, Copy, PartialEq, Eq, Structural)]
pub enum DmaConfig {
    NoDma,
    Tx,
    Rx,
    TxRx,
}

impl DmaConfig {
    /// The `DMAT` and `DMAR` bits.
    pub fn bits(self) -> (r: (bool, bool))
        ensures
            r.0 == (self == DmaConfig::Tx || self == DmaConfig::TxRx),
            r.1 == (self == DmaConfig::Rx || self == DmaConfig::TxRx),
    {
        match self {
            DmaConfig::NoDma => (false, false),
            DmaConfig::Tx => (true, false),
            DmaConfig::Rx => (false, true),
            DmaConfig::TxRx => (true, true),
        }
    }
}

/// USART configuration.
#[derive(Debug, Clone, Copy, PartialEq, Eq, Structural)]
pub struct Config {
    pub baudrate: u32,
    pub word_length: WordLength,
    pub parity: Parity,
    pub stop_bits: StopBits,
    pub duplex_mode: DuplexMode,
    pub sync_mode: SyncMode,
    pub clock_polarity: ClockPolarity,
    pub clock_phase: ClockPhase,
    pub clock_last_bit: bool,
    pub dma: DmaConfig,
    pub init_timeout: u32,
}

/// 115200 baud, 8N1, full duplex, asynchronous, no DMA.
pub open spec fn default_config() -> Config {
    Config {
        baudrate: 115_200,
        word_length: WordLength::DataBits8,
        parity: Parity::NoParity,
        stop_bits: StopBits::Stop1,
        duplex_mode: DuplexMode::Full,
        sync_mode: SyncMode::Async,
        clock_polarity: ClockPolarity::IdleLow,
        clock_phase: ClockPhase::FirstEdge,
        clock_last_bit: false,
        dma: DmaConfig::NoDma,
        init_timeout: DEFAULT_INIT_TIMEOUT,
    }
}

impl Config {
    pub fn default() -> (r: Self)
        ensures
            r == default_config(),
    {
        Config {
            baudrate: 115_200,
            word_length: WordLength::DataBits8,
            parity: Parity::NoParity,
            stop_bits: StopBits::Stop1,
            duplex_mode: DuplexMode::Full,
            sync_mode: SyncMode::Async,
            clock_polarity: ClockPolarity::IdleLow,
            clock_phase: ClockPhase::FirstEdge,
            clock_last_bit: false,
            dma: DmaConfig::NoDma,
            init_timeout: DEFAULT_INIT_TIMEOUT,
        }
    }

    pub fn baudrate(self, baudrate: u32) -> (r: Self)
        ensures
            r == (Config { baudrate, ..self }),
    {
        Config { baudrate, ..self }
    }

    pub fn word_length(self, word_length: WordLength) -> (r: Self)
        ensures
            r == (Config { word_length, ..self }),
    {
        Config { word_length, ..self }
    }

    pub fn parity(self, parity: Parity) -> (r: Self)
        ensures
            r == (Config { parity, ..self }),
    {
        Config { parity, ..self }
    }

    pub fn stop_bits(self, stop_bits: StopBits) -> (r: Self)
        ensures
            r == (Config { stop_bits, ..self }),
    {
        Config { stop_bits, ..self }
    }

    pub fn duplex_mode(self, duplex_mode: DuplexMode) -> (r: Self)
        ensures
            r == (Config { duplex_mode, ..self }),
    {
        Config { duplex_mode, ..self }
    }

    pub fn sync_mode(self, sync_mode: SyncMode) -> (r: Self)
        ensures
            r == (Config { sync_mode, ..self }),
    {
        Config { sync_mode, ..self }
    }

    pub fn clock_polarity(self, polarity: ClockPolarity) -> (r: Self)
        ensures
            r == (Config { clock_polarity: polarity, ..self }),
    {
        Config { clock_polarity: polarity, ..self }
    }

    pub fn clock_phase(self, phase: ClockPhase) -> (r: Self)
        ensures
            r == (Config { clock_phase: phase, ..self }),
    {
        Config { clock_phase: phase, ..self }
    }

    pub fn clock_last_bit(self, enabled: bool) -> (r: Self)
        ensures
            r == (Config { clock_last_bit: enabled, ..self }),
    {
        Config { clock_last_bit: enabled, ..self }
    }

    pub fn dma(self, dma: DmaConfig) -> (r: Self)
        ensures
            r == (Config { dma, ..self }),
    {
        Config { dma, ..self }
    }

    pub fn init_timeout(self, timeout: u32) -> (r: Self)
        ensures
            r == (Config { init_timeout: timeout, ..self }),
    {
        Config { init_timeout: timeout, ..self }
    }

    /// The baud rate and the initialization timeout must be nonzero.
    pub fn validate(&self) -> (r: Result<(), ConfigError>)
        ensures
            self.baudrate == 0 ==> r == Err::<(), ConfigError>(ConfigError::ZeroBaudrate),
            self.baudrate != 0 && self.init_timeout == 0 ==> r == Err::<(), ConfigError>(
                ConfigError::ZeroInitTimeout,
            ),
            self.baudrate != 0 && self.init_timeout != 0 ==> r is Ok,
    {
        if self.baudrate == 0 {
            return Err(ConfigError::ZeroBaudrate);
        }
        if self.init_timeout == 0 {
            return Err(ConfigError::ZeroInitTimeout);
        }
        Ok(())
    }

    /// The plain serial constructor handles only full-duplex asynchronous
    /// configurations; the others have dedicated constructors.
    pub fn check_serial_mode(&self) -> (r: Result<(), ConfigError>)
        ensures
            self.duplex_mode != DuplexMode::Full || self.sync_mode != SyncMode::Async ==> r
                == Err::<(), ConfigError>(ConfigError::DedicatedConstructorRequired),
            self.duplex_mode == DuplexMode::Full && self.sync_mode == SyncMode::Async ==> r is Ok,
    {
        if self.duplex_mode != DuplexMode::Full || self.sync_mode != SyncMode::Async {
            return Err(ConfigError::DedicatedConstructorRequired);
        }
        Ok(())
    }

    /// The configuration used by the synchronous constructor.
    pub fn as_synchronous(self) -> (r: Self)
        ensures
            r == (Config { duplex_mode: DuplexMode::Full, sync_mode: SyncMode::Sync, ..self }),
    {
        Config { duplex_mode: DuplexMode::Full, sync_mode: SyncMode::Sync, ..self }
    }

    /// The configuration used by the half-duplex constructor.
    pub fn as_half_duplex(self) -> (r: Self)
        ensures
            r == (Config { duplex_mode: DuplexMode::Half, sync_mode: SyncMode::Async, ..self }),
    {
        Config { duplex_mode: DuplexMode::Half, sync_mode: SyncMode::Async, ..self }
    }

    /// The control bits `CPOL`, `CPHA` and `LBCL`.
    pub fn clock_bits(&self) -> (r: (bool, bool, bool))
        ensures
            r.0 == (self.clock_polarity == ClockPolarity::IdleHigh),
            r.1 == (self.clock_phase == ClockPhase::SecondEdge),
            r.2 == self.clock_last_bit,
    {
        (
            match self.clock_polarity {
                ClockPolarity::IdleHigh => true,
                ClockPolarity::IdleLow => false,
            },
            match self.clock_phase {
                ClockPhase::SecondEdge => true,
                ClockPhase::FirstEdge => false,
            },
            self.clock_last_bit,
        )
    }
}

/// Configuration errors.
#[derive(Debug, Clone, Copy, PartialEq, Eq, Structural)]
pub enum ConfigError {
    ZeroBaudrate,
    ZeroInitTimeout,
    BaudrateTooHigh,
    BaudrateTooLow,
    DedicatedConstructorRequired,
}

/// Initialization errors.
#[derive(Debug, Clone, Copy, PartialEq, Eq, Structural)]
pub enum InitErrorKind {
    InvalidConfig(ConfigError),
    PeripheralNotReady,
}

/// DMA transfer errors.
#[derive(Debug, Clone, Copy, PartialEq, Eq, Structural)]
pub enum DmaTransferError {
    Dma(DmaError),
    InvalidWordLength,
    WordOutOfRange,
}

impl From<DmaError> for DmaTransferError {
    fn from(error: DmaError) -> (r: Self)
        ensures
            r == DmaTransferError::Dma(error),
    {
        DmaTransferError::Dma(error)
    }
}

impl vstd::std_specs::convert::FromSpecImpl<DmaError> for DmaTransferError {
    open spec fn obeys_from_spec() -> bool {
        true
    }

    open spec fn from_spec(v: DmaError) -> Self {
        DmaTransferError::Dma(v)
    }
}

/// A failed DMA transfer with all consumed resources returned.
pub struct DmaTransferFailure<PERIPHERAL, CHANNEL, BUFFER> {
    pub error: DmaTransferError,
    pub peripheral: PERIPHERAL,
    pub channel: CHANNEL,
    pub buffer: BUFFER,
}

impl<PERIPHERAL, CHANNEL, BUFFER> DmaTransferFailure<PERIPHERAL, CHANNEL, BUFFER> {
    pub fn into_parts(self) -> (r: (DmaTransferError, PERIPHERAL, CHANNEL, BUFFER))
        ensures
            r == (self.error, self.peripheral, self.channel, self.buffer),
    {
        (self.error, self.peripheral, self.channel, self.buffer)
    }
}

/// A failed initialization with the peripheral and pins returned.
pub struct InitError<UART, TXPIN, RXPIN> {
    pub uart: UART,
    pub pins: (TXPIN, RXPIN),
    pub error: InitErrorKind,
}

impl<UART, TXPIN, RXPIN> InitError<UART, TXPIN, RXPIN> {
    pub fn into_parts(self) -> (r: (UART, (TXPIN, RXPIN), InitErrorKind))
        ensures
            r == (self.uart, self.pins, self.error),
    {
        (self.uart, self.pins, self.error)
    }
}

/// A failed initialization of a dedicated mode with the peripheral and pins
/// returned.
pub struct ModeInitError<UART, PINS> {
    pub uart: UART,
    pub pins: PINS,
    pub error: InitErrorKind,
}

impl<UART, PINS> ModeInitError<UART, PINS> {
    pub fn into_parts(self) -> (r: (UART, PINS, InitErrorKind))
        ensures
            r == (self.uart, self.pins, self.error),
    {
        (self.uart, self.pins, self.error)
    }
}

/// USART0.
pub struct Usart0;

/// USART1.
pub struct Usart1;

/// Marker trait implemented only by the USART instances of this crate.
pub trait Sealed {}

impl Sealed for Usart0 {}

impl Sealed for Usart1 {}

/// A USART instance.
pub trait Instance: Sealed {
    /// DMA request line of the instance.
    const DMA_REQUEST: u32;
}

impl Instance for Usart0 {
    const DMA_REQUEST: u32 = 0;
}

impl Instance for Usart1 {
    const DMA_REQUEST: u32 = 1;
}

/// Pins that can carry the transmit line of `UART`.
pub trait TxPin<UART> {}

/// Pins that can carry the receive line of `UART`.
pub trait RxPin<UART> {}

/// Pins that can carry the synchronous clock of `UART`.
pub trait ClockPin<UART> {}

/// Pins that can carry the single line of a half-duplex `UART`.
pub trait HalfDuplexPin<UART> {}

impl TxPin<Usart0> for Pin<0, 6, Func2Mode> {}

impl RxPin<Usart0> for Pin<0, 5, Func2Mode> {}

impl TxPin<Usart1> for Pin<1, 9, Func2Mode> {}

impl RxPin<Usart1> for Pin<1, 8, Func2Mode> {}

impl ClockPin<Usart0> for Pin<1, 5, Func3Mode> {}

impl ClockPin<Usart1> for Pin<2, 6, Func3Mode> {}

impl HalfDuplexPin<Usart0> for Pin<0, 6, Func2Mode> {}

impl HalfDuplexPin<Usart1> for Pin<1, 9, Func2Mode> {}

/// The APB_P clock from the system clock and the raw `DIV_AHB` and
/// `DIV_APB_P` register values; divider values saturate.
pub open spec fn spec_peripheral_clock(sys: u32, ahb_div: u32, apb_p_div: u32) -> int {
    let a: int = if ahb_div == u32::MAX {
        u32::MAX as int
    } else {
        ahb_div + 1
    };
    let p: int = if apb_p_div == u32::MAX {
        u32::MAX as int
    } else {
        apb_p_div + 1
    };
    (sys as int) / a / p
}

/// The APB_P clock feeding the USART.
pub fn peripheral_clock(sys: u32, ahb_div: u32, apb_p_div: u32) -> (r: u32)
    ensures
        r == spec_peripheral_clock(sys, ahb_div, apb_p_div),
{
    let a = ahb_div.saturating_add(1);
    let p = apb_p_div.saturating_add(1);
    sys / a / p
}

/// The baud rate divisor: the clock divided by the rate, rounded to the
/// nearest integer.
pub open spec fn spec_divisor(clock: u32, baudrate: u32) -> int {
    (clock + baudrate / 2) / (baudrate as int)
}

/// Computes the `BRR` divisor for a baud rate: it must be at least 16 (the
/// oversampling) and fit sixteen bits.
pub fn baudrate_divisor(clock: u32, baudrate: u32) -> (r: Result<u16, ConfigError>)
    ensures
        baudrate == 0 ==> r == Err::<u16, ConfigError>(ConfigError::ZeroBaudrate),
        baudrate != 0 && spec_divisor(clock, baudrate) < 16 ==> r == Err::<u16, ConfigError>(
            ConfigError::BaudrateTooHigh,
        ),
        baudrate != 0 && spec_divisor(clock, baudrate) > u16::MAX ==> r == Err::<u16, ConfigError>(
            ConfigError::BaudrateTooLow,
        ),
        baudrate != 0 && 16 <= spec_divisor(clock, baudrate) <= u16::MAX ==> r == Ok::<
            u16,
            ConfigError,
        >(spec_divisor(clock, baudrate) as u16),
{
    if baudrate == 0 {
        return Err(ConfigError::ZeroBaudrate);
    }
    let divisor = (clock as u64 + baudrate as u64 / 2) / baudrate as u64;
    if divisor < MIN_DIVISOR {
        return Err(ConfigError::BaudrateTooHigh);
    }
    if divisor > u16::MAX as u64 {
        return Err(ConfigError::BaudrateTooLow);
    }
    Ok(divisor as u16)
}

/// The divisor is the nearest integer to the clock-to-rate ratio: the
/// resulting rate is off by at most half a divisor step.
pub proof fn lemma_divisor_is_nearest(clock: u32, baudrate: u32)
    requires
        baudrate > 0,
    ensures
        spec_divisor(clock, baudrate) * baudrate <= clock + baudrate / 2,
        clock + baudrate / 2 < spec_divisor(clock, baudrate) * baudrate + baudrate,
{
    let d = spec_divisor(clock, baudrate);
    assert(d * baudrate <= clock + baudrate / 2 && clock + baudrate / 2 < d * baudrate + baudrate)
        by (nonlinear_arith)
        requires
            d == (clock + baudrate / 2) / (baudrate as int),
            baudrate > 0,
    ;
}

/// The errors of the embedded serial interface.
#[derive(Debug, Clone, Copy, PartialEq, Eq, Structural)]
pub enum ErrorKind {
    Overrun,
    FrameFormat,
    Parity,
    Noise,
    Other,
}

/// One read of the status register (`FLAGS`).
#[derive(Debug, Clone, Copy, PartialEq, Eq, Structural)]
pub struct Flags {
    /// Parity error.
    pub pe: bool,
    /// Framing error.
    pub fe: bool,
    /// Noise detected.
    pub nf: bool,
    /// Receiver overrun.
    pub ore: bool,
    /// A received word is waiting.
    pub rxne: bool,
    /// The transmit register is empty.
    pub txe: bool,
    /// The transmission is complete.
    pub tc: bool,
    /// Transmitter enable acknowledged.
    pub teack: bool,
    /// Receiver enable acknowledged.
    pub reack: bool,
}

/// The outcome of a receive attempt: an error (whose flag the driver clears)
/// in the order parity, framing, noise, overrun; otherwise a word is read
/// if one is waiting.
pub fn read_status(flags: Flags) -> (r: Result<(), NbError<ErrorKind>>)
    ensures
        flags.pe ==> r == Err::<(), NbError<ErrorKind>>(NbError::Other(ErrorKind::Parity)),
        !flags.pe && flags.fe ==> r == Err::<(), NbError<ErrorKind>>(
            NbError::Other(ErrorKind::FrameFormat),
        ),
        !flags.pe && !flags.fe && flags.nf ==> r == Err::<(), NbError<ErrorKind>>(
            NbError::Other(ErrorKind::Noise),
        ),
        !flags.pe && !flags.fe && !flags.nf && flags.ore ==> r == Err::<(), NbError<ErrorKind>>(
            NbError::Other(ErrorKind::Overrun),
        ),
        !flags.pe && !flags.fe && !flags.nf && !flags.ore && !flags.rxne ==> r == Err::<
            (),
            NbError<ErrorKind>,
        >(NbError::WouldBlock),
        !flags.pe && !flags.fe && !flags.nf && !flags.ore && flags.rxne ==> r is Ok,
{
    if flags.pe {
        return Err(NbError::Other(ErrorKind::Parity));
    }
    if flags.fe {
        return Err(NbError::Other(ErrorKind::FrameFormat));
    }
    if flags.nf {
        return Err(NbError::Other(ErrorKind::Noise));
    }
    if flags.ore {
        return Err(NbError::Other(ErrorKind::Overrun));
    }
    if !flags.rxne {
        return Err(NbError::WouldBlock);
    }
    Ok(())
}

/// Whether a word may be written now: the transmit register must be empty.
pub fn write_status(flags: Flags) -> (r: Result<(), NbError<ErrorKind>>)
    ensures
        !flags.txe ==> r == Err::<(), NbError<ErrorKind>>(NbError::WouldBlock),
        flags.txe ==> r is Ok,
{
    if !flags.txe {
        return Err(NbError::WouldBlock);
    }
    Ok(())
}

/// Whether the transmission is complete.
pub fn flush_status(flags: Flags) -> (r: Result<(), NbError<ErrorKind>>)
    ensures
        !flags.tc ==> r == Err::<(), NbError<ErrorKind>>(NbError::WouldBlock),
        flags.tc ==> r is Ok,
{
    if !flags.tc {
        return Err(NbError::WouldBlock);
    }
    Ok(())
}

/// Whether both directions acknowledged enabling.
pub fn enable_acknowledged(flags: Flags) -> (r: bool)
    ensures
        r == (flags.teack && flags.reack),
{
    flags.teack && flags.reack
}

/// Whether a byte may be sent or received: not with 9-bit words.
pub fn check_byte_access(word_length: WordLength) -> (r: Result<(), ErrorKind>)
    ensures
        word_length == WordLength::DataBits9 ==> r == Err::<(), ErrorKind>(ErrorKind::Other),
        word_length != WordLength::DataBits9 ==> r is Ok,
{
    if word_length == WordLength::DataBits9 {
        return Err(ErrorKind::Other);
    }
    Ok(())
}

/// Whether a 9-bit word may be sent: only with 9-bit words, and the value
/// must fit nine bits.
pub fn check_word_write(word_length: WordLength, word: u16) -> (r: Result<(), ErrorKind>)
    ensures
        word_length != WordLength::DataBits9 || word > MAX_9BIT_WORD ==> r == Err::<(), ErrorKind>(
            ErrorKind::Other,
        ),
        word_length == WordLength::DataBits9 && word <= MAX_9BIT_WORD ==> r is Ok,
{
    if word_length != WordLength::DataBits9 || word > MAX_9BIT_WORD {
        return Err(ErrorKind::Other);
    }
    Ok(())
}

/// Whether a 9-bit word may be received: only with 9-bit words.
pub fn check_word_read(word_length: WordLength) -> (r: Result<(), ErrorKind>)
    ensures
        word_length != WordLength::DataBits9 ==> r == Err::<(), ErrorKind>(ErrorKind::Other),
        word_length == WordLength::DataBits9 ==> r is Ok,
{
    if word_length != WordLength::DataBits9 {
        return Err(ErrorKind::Other);
    }
    Ok(())
}

/// The byte of a received word in 7/8-bit mode: the low eight bits.
pub fn word_to_byte(word: u16) -> (r: u8)
    ensures
        r == word % 256,
{
    (word % 256) as u8
}

/// Whether a DMA transfer of bytes may start: not with 9-bit words.
pub fn check_dma_bytes(word_length: WordLength) -> (r: Result<(), DmaTransferError>)
    ensures
        word_length == WordLength::DataBits9 ==> r == Err::<(), DmaTransferError>(
            DmaTransferError::InvalidWordLength,
        ),
        word_length != WordLength::DataBits9 ==> r is Ok,
{
    if word_length == WordLength::DataBits9 {
        return Err(DmaTransferError::InvalidWordLength);
    }
    Ok(())
}

/// Whether every word fits nine bits.
pub open spec fn all_fit_9_bits(words: Seq<u16>) -> bool {
    forall|i: int| 0 <= i < words.len() ==> #[trigger] words[i] <= MAX_9BIT_WORD
}

/// Whether a DMA transfer of 9-bit words may start: only with 9-bit words,
/// and for a transmit every word must fit nine bits. Returns the transfer
/// length in bytes, two per word (saturating).
pub fn check_dma_words(word_length: WordLength, words: &[u16], transmit: bool) -> (r: Result<
    usize,
    DmaTransferError,
>)
    ensures
        word_length != WordLength::DataBits9 ==> r == Err::<usize, DmaTransferError>(
            DmaTransferError::InvalidWordLength,
        ),
        word_length == WordLength::DataBits9 && transmit && !all_fit_9_bits(words@) ==> r == Err::<
            usize,
            DmaTransferError,
        >(DmaTransferError::WordOutOfRange),
        word_length == WordLength::DataBits9 && (!transmit || all_fit_9_bits(words@)) ==> r
            == Ok::<usize, DmaTransferError>(
            if 2 * words@.len() > usize::MAX {
                usize::MAX
            } else {
                (2 * words@.len()) as usize
            },
        ),
{
    if word_length != WordLength::DataBits9 {
        return Err(DmaTransferError::InvalidWordLength);
    }
    if transmit {
        let n = words.len();
        let mut i: usize = 0;
        while i < n
            invariant
                n == words@.len(),
                i <= n,
                word_length == WordLength::DataBits9,
                transmit,
                forall|k: int| 0 <= k < i ==> #[trigger] words@[k] <= MAX_9BIT_WORD,
            decreases n - i,
        {
            if words[i] > MAX_9BIT_WORD {
                assert(!all_fit_9_bits(words@)) by {
                    assert(!(words@[i as int] <= MAX_9BIT_WORD));
                }
                return Err(DmaTransferError::WordOutOfRange);
            }
            i = i + 1;
        }
    }
    let n = words.len();
    if n > usize::MAX / 2 {
        Ok(usize::MAX)
    } else {
        Ok(n * 2)
    }
}

/// DMA configuration that feeds the transmit register: memory source with
/// increment, word size `size` (0: byte, 1: half-word), the instance's
/// request on the destination side and its acknowledge.
pub fn dma_tx_config(request: u32, size: u32) -> (r: u32)
    requires
        request < 16,
        size <= 1,
    ensures
        r == (1u32 << 3) | (1u32 << 5) | (size << 7) | (size << 9) | (request << 21) | (1u32 << 26),
{
    (1u32 << 3) | (1u32 << 5) | (size << 7) | (size << 9) | (request << 21) | (1u32 << 26)
}

/// DMA configuration that drains the receive register: memory destination
/// with increment, word size `size`, the instance's request on the source
/// side and its acknowledge.
pub fn dma_rx_config(request: u32, size: u32) -> (r: u32)
    requires
        request < 16,
        size <= 1,
    ensures
        r == (1u32 << 4) | (1u32 << 6) | (size << 7) | (size << 9) | (request << 17) | (1u32 << 25),
{
    (1u32 << 4) | (1u32 << 6) | (size << 7) | (size << 9) | (request << 17) | (1u32 << 25)
}

/// The error of a DMA wait that ran out of polls.
pub fn dma_timeout() -> (r: DmaTransferError)
    ensures
        r == DmaTransferError::Dma(DmaError::Timeout),
{
    DmaTransferError::Dma(DmaError::Timeout)
}

} // verus!
