//! I2C master and slave logic.
//!
//! The peripheral follows the usual `TIMINGR`/`CR1`/`CR2`/`ISR`/`ICR` layout.
//! This module validates configurations, plans master transactions (which
//! operation generates START, RELOAD and AUTOEND and how every buffer is cut
//! into `NBYTES` chunks), and holds the decision steps of the slave receive
//! and transmit loops. The driver reads `ISR` and hands the flags over as an
//! [`Isr`] snapshot.

use vstd::prelude::*;

verus! {

/// Largest 7-bit address.
pub const I2C_ADDRESS_7BIT_MAX: u16 = 0x7f;

/// Largest 10-bit address.
pub const I2C_ADDRESS_10BIT_MAX: u16 = 0x03ff;

/// Largest value of the eight-bit `NBYTES` field.
pub const I2C_NBYTE_MAX: usize = 255;

/// Largest value of a four-bit `TIMINGR` field.
pub const TIMING_4BIT_MAX: u8 = 0x0f;

/// Default number of polls before a wait reports a timeout.
pub const DEFAULT_TIMEOUT: u32 = 1_000;

/// Marker trait implemented only by the I2C instances of this crate.
pub trait Sealed {}

/// Raw values for the I2C `TIMINGR` register.
///
/// The default values configure approximately 100 kHz SCL when I2CCLK is
/// 32 MHz. Applications using another peripheral clock should provide values
/// calculated for that clock.
#[derive(Debug, Copy, Clone, Eq, PartialEq, Structural)]
pub struct Timing {
    pub prescaler: u8,
    pub scl_delay: u8,
    pub sda_delay: u8,
    pub scl_high: u8,
    pub scl_low: u8,
}

/// The timing for a 100 kHz bus from a 32 MHz kernel clock.
pub open spec fn default_timing() -> Timing {
    Timing { prescaler: 3, scl_delay: 4, sda_delay: 2, scl_high: 39, scl_low: 39 }
}

impl Timing {
    /// Timing for approximately 100 kHz SCL from a 32 MHz I2C clock.
    pub fn default_100khz_32mhz() -> (r: Self)
        ensures
            r == default_timing(),
    {
        Timing { prescaler: 3, scl_delay: 4, sda_delay: 2, scl_high: 39, scl_low: 39 }
    }
}

impl Default for Timing {
    fn default() -> (r: Self)
        ensures
            r == default_timing(),
    {
        Self::default_100khz_32mhz()
    }
}

/// Bus role of the peripheral.
#[derive(Debug, Copy, Clone, Eq, PartialEq, Structural)]
pub enum Mode {
    Master,
    Slave,
}

impl Default for Mode {
    fn default() -> (r: Self)
        ensures
            r == Mode::Master,
    {
        Mode::Master
    }
}

/// How many low bits of the secondary own address are ignored (`OA2MSK`).
#[derive(Debug, Copy, Clone, Eq, PartialEq, Structural)]
pub enum SecondaryAddressMask {
    Exact,
    IgnoreOneBit,
    IgnoreTwoBits,
    IgnoreThreeBits,
    IgnoreFourBits,
    IgnoreFiveBits,
    IgnoreSixBits,
    AllNonReserved,
}

impl SecondaryAddressMask {
    /// The `OA2MSK` field value.
    pub open spec fn spec_bits(self) -> u8 {
        match self {
            SecondaryAddressMask::Exact => 0,
            SecondaryAddressMask::IgnoreOneBit => 1,
            SecondaryAddressMask::IgnoreTwoBits => 2,
            SecondaryAddressMask::IgnoreThreeBits => 3,
            SecondaryAddressMask::IgnoreFourBits => 4,
            SecondaryAddressMask::IgnoreFiveBits => 5,
            SecondaryAddressMask::IgnoreSixBits => 6,
            SecondaryAddressMask::AllNonReserved => 7,
        }
    }

    /// The `OA2MSK` field value.
    pub fn bits(self) -> (r: u8)
        ensures
            r == self.spec_bits(),
            r <= 7,
    {
        match self {
            SecondaryAddressMask::Exact => 0,
            SecondaryAddressMask::IgnoreOneBit => 1,
            SecondaryAddressMask::IgnoreTwoBits => 2,
            SecondaryAddressMask::IgnoreThreeBits => 3,
            SecondaryAddressMask::IgnoreFourBits => 4,
            SecondaryAddressMask::IgnoreFiveBits => 5,
            SecondaryAddressMask::IgnoreSixBits => 6,
            SecondaryAddressMask::AllNonReserved => 7,
        }
    }
}

/// Secondary own address (`OAR2`).
#[derive(Debug, Copy, Clone, Eq, PartialEq, Structural)]
pub struct SecondaryAddress {
    pub address: u8,
    pub mask: SecondaryAddressMask,
}

impl SecondaryAddress {
    pub fn new(address: u8, mask: SecondaryAddressMask) -> (r: Self)
        ensures
            r.address == address,
            r.mask == mask,
    {
        SecondaryAddress { address, mask }
    }
}

/// I2C configuration.
#[derive(Debug, Copy, Clone, Eq, PartialEq, Structural)]
pub struct Config {
    pub mode: Mode,
    pub address_primary: u16,
    pub address_secondary: Option<SecondaryAddress>,
    pub general_call: bool,
    pub sbc_mode: bool,
    /// Byte sent when the master reads beyond the supplied slave TX buffer.
    pub underflow_fill: u8,
    pub timing: Timing,
    pub timeout: u32,
}

/// The default configuration: a master with the 100 kHz timing.
pub open spec fn default_config() -> Config {
    Config {
        mode: Mode::Master,
        address_primary: 0,
        address_secondary: None,
        general_call: false,
        sbc_mode: false,
        underflow_fill: 0xff,
        timing: default_timing(),
        timeout: DEFAULT_TIMEOUT,
    }
}

/// The first problem that [`Config::validate`] reports, if any.
pub open spec fn config_error(c: Config) -> Option<ConfigError> {
    if c.timeout == 0 {
        Some(ConfigError::ZeroTimeout)
    } else if c.timing.prescaler > TIMING_4BIT_MAX {
        Some(ConfigError::TimingPrescalerOutOfRange)
    } else if c.timing.scl_delay > TIMING_4BIT_MAX {
        Some(ConfigError::TimingSclDelayOutOfRange)
    } else if c.timing.sda_delay > TIMING_4BIT_MAX {
        Some(ConfigError::TimingSdaDelayOutOfRange)
    } else if c.mode == Mode::Master {
        None
    } else if c.address_primary > I2C_ADDRESS_10BIT_MAX {
        Some(ConfigError::PrimaryAddressOutOfRange)
    } else if c.address_primary > I2C_ADDRESS_7BIT_MAX {
        Some(ConfigError::SlaveTenBitAddressUnsupported)
    } else if c.address_secondary.is_some() && c.address_secondary.unwrap().address
        > I2C_ADDRESS_7BIT_MAX {
        Some(ConfigError::SecondaryAddressOutOfRange)
    } else if c.sbc_mode {
        Some(ConfigError::SlaveSbcUnsupported)
    } else {
        None
    }
}

impl Config {
    /// The default configuration (see [`default_config`]).
    pub fn default() -> (r: Self)
        ensures
            r == default_config(),
    {
        Config {
            mode: Mode::Master,
            address_primary: 0,
            address_secondary: None,
            general_call: false,
            sbc_mode: false,
            underflow_fill: 0xff,
            timing: Timing::default_100khz_32mhz(),
            timeout: DEFAULT_TIMEOUT,
        }
    }

    pub fn as_master(self) -> (r: Self)
        ensures
            r == (Config { mode: Mode::Master, ..self }),
    {
        Config { mode: Mode::Master, ..self }
    }

    pub fn as_slave(self) -> (r: Self)
        ensures
            r == (Config { mode: Mode::Slave, ..self }),
    {
        Config { mode: Mode::Slave, ..self }
    }

    pub fn timeout(self, timeout: u32) -> (r: Self)
        ensures
            r == (Config { timeout, ..self }),
    {
        Config { timeout, ..self }
    }

    pub fn timing(self, timing: Timing) -> (r: Self)
        ensures
            r == (Config { timing, ..self }),
    {
        Config { timing, ..self }
    }

    pub fn primary_address(self, address: u16) -> (r: Self)
        ensures
            r == (Config { address_primary: address, ..self }),
    {
        Config { address_primary: address, ..self }
    }

    pub fn secondary_address(self, address: SecondaryAddress) -> (r: Self)
        ensures
            r == (Config { address_secondary: Some(address), ..self }),
    {
        Config { address_secondary: Some(address), ..self }
    }

    pub fn without_secondary_address(self) -> (r: Self)
        ensures
            r == (Config { address_secondary: None, ..self }),
    {
        Config { address_secondary: None, ..self }
    }

    pub fn general_call(self, enabled: bool) -> (r: Self)
        ensures
            r == (Config { general_call: enabled, ..self }),
    {
        Config { general_call: enabled, ..self }
    }

    pub fn underflow_fill(self, byte: u8) -> (r: Self)
        ensures
            r == (Config { underflow_fill: byte, ..self }),
    {
        Config { underflow_fill: byte, ..self }
    }

    /// Checks the configuration before any register is touched.
    ///
    /// The timeout must be nonzero and the three four-bit `TIMINGR` fields must
    /// fit. A slave additionally needs a 7-bit primary address (10-bit slave
    /// addressing and SBC mode are not supported) and a 7-bit secondary one.
    pub fn validate(&self) -> (r: Result<(), ConfigError>)
        ensures
            r is Ok <==> config_error(*self) is None,
            r is Err ==> config_error(*self) == Some(r->Err_0),
    {
        if self.timeout == 0 {
            return Err(ConfigError::ZeroTimeout);
        }
        if self.timing.prescaler > TIMING_4BIT_MAX {
            return Err(ConfigError::TimingPrescalerOutOfRange);
        }
        if self.timing.scl_delay > TIMING_4BIT_MAX {
            return Err(ConfigError::TimingSclDelayOutOfRange);
        }
        if self.timing.sda_delay > TIMING_4BIT_MAX {
            return Err(ConfigError::TimingSdaDelayOutOfRange);
        }
        match self.mode {
            Mode::Master => {},
            Mode::Slave => {
                if self.address_primary > I2C_ADDRESS_10BIT_MAX {
                    return Err(ConfigError::PrimaryAddressOutOfRange);
                }
                if self.address_primary > I2C_ADDRESS_7BIT_MAX {
                    return Err(ConfigError::SlaveTenBitAddressUnsupported);
                }
                if let Some(address) = self.address_secondary {
                    if address.address as u16 > I2C_ADDRESS_7BIT_MAX {
                        return Err(ConfigError::SecondaryAddressOutOfRange);
                    }
                }
                if self.sbc_mode {
                    return Err(ConfigError::SlaveSbcUnsupported);
                }
            },
        }
        Ok(())
    }

    /// Which own address an `ADDCODE` reported with `ADDR` belongs to.
    ///
    /// `ADDR` is only raised for an enabled own address or for the general
    /// call, so an address that is neither the general call nor the primary
    /// address was accepted through `OA2` (possibly through its mask).
    pub fn address_match_source(&self, address: u8) -> (r: AddressMatchSource)
        ensures
            r == address_source(*self, address),
    {
        if self.general_call && address == 0 {
            AddressMatchSource::GeneralCall
        } else if (self.address_primary % 256) as u8 == address {
            AddressMatchSource::Primary
        } else {
            AddressMatchSource::Secondary
        }
    }

    /// The `OAR1` programming for the primary address: whether it uses the
    /// 10-bit mode, and the address value written to the selected field.
    pub fn primary_address_mode(&self) -> (r: (bool, u16))
        ensures
            r.0 == (self.address_primary > I2C_ADDRESS_7BIT_MAX),
            r.1 == self.address_primary,
    {
        (self.address_primary > I2C_ADDRESS_7BIT_MAX, self.address_primary)
    }
}

impl Default for Config {
    fn default() -> (r: Self)
        ensures
            r == default_config(),
    {
        Config::default()
    }
}

/// The source of an address match for a given `ADDCODE`.
pub open spec fn address_source(c: Config, address: u8) -> AddressMatchSource {
    if c.general_call && address == 0 {
        AddressMatchSource::GeneralCall
    } else if c.address_primary % 256 == address {
        AddressMatchSource::Primary
    } else {
        AddressMatchSource::Secondary
    }
}

/// Configuration errors.
#[derive(Debug, Copy, Clone, Eq, PartialEq, Structural)]
pub enum ConfigError {
    ZeroTimeout,
    TimingPrescalerOutOfRange,
    TimingSclDelayOutOfRange,
    TimingSdaDelayOutOfRange,
    PrimaryAddressOutOfRange,
    SlaveTenBitAddressUnsupported,
    SecondaryAddressOutOfRange,
    SlaveSbcUnsupported,
}

/// A failed initialization, returning the peripheral to the caller.
pub struct InitError<I2C> {
    pub i2c: I2C,
    pub error: ConfigError,
}

impl<I2C> InitError<I2C> {
    pub fn into_parts(self) -> (r: (I2C, ConfigError))
        ensures
            r.0 == self.i2c,
            r.1 == self.error,
    {
        (self.i2c, self.error)
    }
}

/// I2C operation errors.
#[derive(Debug, Copy, Clone, Eq, PartialEq, Structural)]
pub enum Error {
    BusError,
    ArbitrationLoss,
    Nack,
    Overrun,
    Timeout,
    InvalidMode,
    InvalidAddress,
    InvalidDirection,
    SlaveTimeout(SlaveTimeout),
}

/// The generic error categories of the embedded I2C interface.
#[derive(Debug, Copy, Clone, Eq, PartialEq, Structural)]
pub enum ErrorKind {
    Bus,
    ArbitrationLoss,
    /// A NACK whose source (address or data phase) is not known.
    NoAcknowledge,
    Overrun,
    Other,
}

impl Error {
    /// The generic category of this error.
    pub fn kind(&self) -> (r: ErrorKind)
        ensures
            r == (match *self {
                Error::BusError => ErrorKind::Bus,
                Error::ArbitrationLoss => ErrorKind::ArbitrationLoss,
                Error::Nack => ErrorKind::NoAcknowledge,
                Error::Overrun => ErrorKind::Overrun,
                _ => ErrorKind::Other,
            }),
    {
        match *self {
            Error::BusError => ErrorKind::Bus,
            Error::ArbitrationLoss => ErrorKind::ArbitrationLoss,
            Error::Nack => ErrorKind::NoAcknowledge,
            Error::Overrun => ErrorKind::Overrun,
            Error::Timeout | Error::InvalidMode | Error::InvalidAddress | Error::InvalidDirection
            | Error::SlaveTimeout(_) => ErrorKind::Other,
        }
    }
}

#[derive(Debug, Copy, Clone, Eq, PartialEq, Structural)]
pub enum SlaveDirection {
    /// The master writes and the slave receives.
    Receive,
    /// The master reads and the slave transmits.
    Transmit,
}

#[derive(Debug, Copy, Clone, Eq, PartialEq, Structural)]
pub struct SlaveTimeout {
    pub direction: SlaveDirection,
    pub count: usize,
    pub buffer_status: SlaveBufferStatus,
}

#[derive(Debug, Copy, Clone, Eq, PartialEq, Structural)]
pub enum SlaveAcknowledge {
    Ack,
    Nack,
}

#[derive(Debug, Copy, Clone, Eq, PartialEq, Structural)]
pub enum AddressMatchSource {
    Primary,
    Secondary,
    GeneralCall,
}

#[derive(Debug, Copy, Clone, Eq, PartialEq, Structural)]
pub struct AddressMatch {
    pub address: u8,
    pub source: AddressMatchSource,
    pub direction: SlaveDirection,
}

#[derive(Debug, Copy, Clone, Eq, PartialEq, Structural)]
pub enum SlaveTransferEnd {
    Stop,
    Nack,
    RepeatedStart,
}

#[derive(Debug, Copy, Clone, Eq, PartialEq, Structural)]
pub enum SlaveBufferStatus {
    Complete,
    Overflow,
    Underflow,
}

#[derive(Debug, Copy, Clone, Eq, PartialEq, Structural)]
pub struct SlaveTransfer {
    pub count: usize,
    pub end: SlaveTransferEnd,
    pub buffer_status: SlaveBufferStatus,
}

/// One read of the interrupt and status register (`ISR`).
#[derive(Debug, Copy, Clone, Eq, PartialEq, Structural)]
pub struct Isr {
    /// Transmit interrupt status: `TXDR` is empty and data must be written.
    pub txis: bool,
    /// Receive data register not empty.
    pub rxne: bool,
    /// Address matched (slave mode).
    pub addr: bool,
    /// NACK received.
    pub nackf: bool,
    /// STOP detected.
    pub stopf: bool,
    /// Transfer complete (master, `RELOAD = 0`, `AUTOEND = 0`).
    pub tc: bool,
    /// Transfer complete reload.
    pub tcr: bool,
    /// Bus error.
    pub berr: bool,
    /// Arbitration lost.
    pub arlo: bool,
    /// Overrun or underrun (slave mode).
    pub ovr: bool,
    /// Transfer direction of the matched address: the master reads.
    pub dir: bool,
    /// Bus busy.
    pub busy: bool,
    /// The matched address (`ADDCODE`).
    pub addcode: u8,
}

/// The bus error that a slave-side check reports for `isr`, by priority.
pub open spec fn spec_bus_error(isr: Isr) -> Option<Error> {
    if isr.berr {
        Some(Error::BusError)
    } else if isr.arlo {
        Some(Error::ArbitrationLoss)
    } else if isr.ovr {
        Some(Error::Overrun)
    } else {
        None
    }
}

/// The error that a master-side check reports for `isr`: NACK first, then
/// the bus errors.
pub open spec fn spec_master_error(isr: Isr) -> Option<Error> {
    if isr.nackf {
        Some(Error::Nack)
    } else {
        spec_bus_error(isr)
    }
}

/// The bus error flagged in `isr`, checked in the order `BERR`, `ARLO`, `OVR`.
/// The driver clears the reported flag in `ICR` before returning the error.
pub fn bus_error(isr: Isr) -> (r: Option<Error>)
    ensures
        r == spec_bus_error(isr),
{
    if isr.berr {
        Some(Error::BusError)
    } else if isr.arlo {
        Some(Error::ArbitrationLoss)
    } else if isr.ovr {
        Some(Error::Overrun)
    } else {
        None
    }
}

/// The error flagged in `isr` during a master transfer: `NACKF` before the
/// bus errors.
pub fn master_error(isr: Isr) -> (r: Option<Error>)
    ensures
        r == spec_master_error(isr),
{
    if isr.nackf {
        Some(Error::Nack)
    } else {
        bus_error(isr)
    }
}

/// Direction of the address latched with `ADDR`.
pub open spec fn spec_isr_direction(isr: Isr) -> SlaveDirection {
    if isr.dir {
        SlaveDirection::Transmit
    } else {
        SlaveDirection::Receive
    }
}

/// Direction of the address latched with `ADDR`.
pub fn isr_direction(isr: Isr) -> (r: SlaveDirection)
    ensures
        r == spec_isr_direction(isr),
{
    if isr.dir {
        SlaveDirection::Transmit
    } else {
        SlaveDirection::Receive
    }
}

/// What one poll of the address wait does.
#[derive(Debug, Copy, Clone, Eq, PartialEq, Structural)]
pub enum AddressPoll {
    /// The own address was matched.
    Matched(AddressMatch),
    /// A previous transfer ended; clear `STOPF` and `NACKF` and keep waiting.
    ClearEndFlags,
    /// Nothing happened yet.
    Idle,
}

/// The decision of one poll of the slave address wait, after the bus errors
/// were checked.
pub fn address_poll(config: &Config, isr: Isr) -> (r: AddressPoll)
    ensures
        isr.addr ==> r == AddressPoll::Matched(
            AddressMatch {
                address: isr.addcode,
                source: address_source(*config, isr.addcode),
                direction: spec_isr_direction(isr),
            },
        ),
        !isr.addr && (isr.stopf || isr.nackf) ==> r == AddressPoll::ClearEndFlags,
        !isr.addr && !isr.stopf && !isr.nackf ==> r == AddressPoll::Idle,
{
    if isr.addr {
        let address = isr.addcode;
        AddressPoll::Matched(
            AddressMatch {
                address,
                source: config.address_match_source(address),
                direction: isr_direction(isr),
            },
        )
    } else if isr.stopf || isr.nackf {
        AddressPoll::ClearEndFlags
    } else {
        AddressPoll::Idle
    }
}

/// Checks that a slave transfer may start in the `expected` direction: the
/// peripheral is a slave and `ADDR` latched an address in that direction.
pub fn ensure_slave_direction(mode: Mode, isr: Isr, expected: SlaveDirection) -> (r: Result<
    (),
    Error,
>)
    ensures
        mode != Mode::Slave ==> r == Err::<(), Error>(Error::InvalidMode),
        mode == Mode::Slave && !isr.addr ==> r == Err::<(), Error>(Error::InvalidDirection),
        mode == Mode::Slave && isr.addr && spec_isr_direction(isr) != expected ==> r == Err::<
            (),
            Error,
        >(Error::InvalidDirection),
        mode == Mode::Slave && isr.addr && spec_isr_direction(isr) == expected ==> r is Ok,
{
    if mode != Mode::Slave {
        return Err(Error::InvalidMode);
    }
    if !isr.addr {
        return Err(Error::InvalidDirection);
    }
    let actual = isr_direction(isr);
    if actual != expected {
        return Err(Error::InvalidDirection);
    }
    Ok(())
}

/// Checks that a master transaction may start: the peripheral is a master and
/// the address fits into seven bits.
pub fn validate_transaction(mode: Mode, address: u8) -> (r: Result<(), Error>)
    ensures
        mode != Mode::Master ==> r == Err::<(), Error>(Error::InvalidMode),
        mode == Mode::Master && address > 0x7f ==> r == Err::<(), Error>(Error::InvalidAddress),
        mode == Mode::Master && address <= 0x7f ==> r is Ok,
{
    if mode != Mode::Master {
        return Err(Error::InvalidMode);
    }
    if address as u16 > I2C_ADDRESS_7BIT_MAX {
        return Err(Error::InvalidAddress);
    }
    Ok(())
}

/// The buffer status reported for a receive.
pub open spec fn receive_status(overflow: bool) -> SlaveBufferStatus {
    if overflow {
        SlaveBufferStatus::Overflow
    } else {
        SlaveBufferStatus::Complete
    }
}

/// The buffer status reported for a transmit.
pub open spec fn transmit_status(underflow: bool) -> SlaveBufferStatus {
    if underflow {
        SlaveBufferStatus::Underflow
    } else {
        SlaveBufferStatus::Complete
    }
}

/// State of a slave receive: bytes written by the master are stored until
/// STOP or a repeated START.
///
/// The driver loop is: [`SlaveReceiver::poll`] (which fails once the poll
/// budget is spent), the bus-error check of [`bus_error`], a fresh `ISR` read
/// handed to [`SlaveReceiver::on_status`], and for a received byte
/// [`SlaveReceiver::on_byte`], which says where the byte goes.
#[derive(Debug, Copy, Clone, Eq, PartialEq, Structural)]
pub struct SlaveReceiver {
    /// Bytes stored so far.
    pub count: usize,
    /// Length of the receive buffer.
    pub capacity: usize,
    /// Whether a byte had to be discarded for lack of space.
    pub overflow: bool,
    /// Polls left before the receive times out.
    pub remaining: u32,
    /// Poll budget restored after every received byte.
    pub timeout: u32,
}

/// What the driver does after a status read during a slave receive.
#[derive(Debug, Copy, Clone, Eq, PartialEq, Structural)]
pub enum ReceiveAction {
    /// Read `RXDR` and pass the byte to [`SlaveReceiver::on_byte`].
    ReadByte,
    /// A repeated START addressed the slave: the transfer ends here.
    RepeatedStart(SlaveTransfer),
    /// STOP was detected: finish the slave transfer (flush `TXDR`, clear the
    /// end flags and the NACK request) and report the transfer.
    Stop(SlaveTransfer),
    /// Nothing to do; poll again.
    Idle,
}

/// Where a byte read from `RXDR` goes.
#[derive(Debug, Copy, Clone, Eq, PartialEq, Structural)]
pub enum ByteDisposition {
    /// Store the byte at this buffer index.
    Store(usize),
    /// The buffer is full: discard the byte and request NACK.
    DiscardAndNack,
}

impl SlaveReceiver {
    /// Well-formed receiver state.
    pub open spec fn wf(&self) -> bool {
        &&& self.count <= self.capacity
        &&& self.remaining <= self.timeout
    }

    /// The transfer report for the given end of transfer.
    pub open spec fn report(&self, end: SlaveTransferEnd) -> SlaveTransfer {
        SlaveTransfer { count: self.count, end, buffer_status: receive_status(self.overflow) }
    }

    /// Starts a receive into a buffer of `capacity` bytes with a budget of
    /// `timeout` polls between bytes.
    pub fn new(capacity: usize, timeout: u32) -> (r: Self)
        ensures
            r.wf(),
            r == (SlaveReceiver { count: 0, capacity, overflow: false, remaining: timeout, timeout }),
    {
        SlaveReceiver { count: 0, capacity, overflow: false, remaining: timeout, timeout }
    }

    /// Spends one poll of the budget; once it is exhausted the receive fails
    /// with [`Error::SlaveTimeout`] reporting the bytes stored so far.
    pub fn poll(&mut self) -> (r: Result<(), Error>)
        requires
            old(self).wf(),
        ensures
            final(self).wf(),
            old(self).remaining == 0 ==> r == Err::<(), Error>(
                Error::SlaveTimeout(
                    SlaveTimeout {
                        direction: SlaveDirection::Receive,
                        count: old(self).count,
                        buffer_status: receive_status(old(self).overflow),
                    },
                ),
            ) && *final(self) == *old(self),
            old(self).remaining > 0 ==> r is Ok && *final(self) == (SlaveReceiver {
                remaining: (old(self).remaining - 1) as u32,
                ..*old(self)
            }),
    {
        if self.remaining == 0 {
            return Err(
                Error::SlaveTimeout(
                    SlaveTimeout {
                        direction: SlaveDirection::Receive,
                        count: self.count,
                        buffer_status: if self.overflow {
                            SlaveBufferStatus::Overflow
                        } else {
                            SlaveBufferStatus::Complete
                        },
                    },
                ),
            );
        }
        self.remaining = self.remaining - 1;
        Ok(())
    }

    /// The decision for a status read: a received byte comes first, then a
    /// repeated START, then STOP.
    pub fn on_status(&self, isr: Isr) -> (r: ReceiveAction)
        requires
            self.wf(),
        ensures
            isr.rxne ==> r == ReceiveAction::ReadByte,
            !isr.rxne && isr.addr ==> r == ReceiveAction::RepeatedStart(
                self.report(SlaveTransferEnd::RepeatedStart),
            ),
            !isr.rxne && !isr.addr && isr.stopf ==> r == ReceiveAction::Stop(
                self.report(SlaveTransferEnd::Stop),
            ),
            !isr.rxne && !isr.addr && !isr.stopf ==> r == ReceiveAction::Idle,
    {
        let buffer_status = if self.overflow {
            SlaveBufferStatus::Overflow
        } else {
            SlaveBufferStatus::Complete
        };
        if isr.rxne {
            ReceiveAction::ReadByte
        } else if isr.addr {
            ReceiveAction::RepeatedStart(
                SlaveTransfer {
                    count: self.count,
                    end: SlaveTransferEnd::RepeatedStart,
                    buffer_status,
                },
            )
        } else if isr.stopf {
            ReceiveAction::Stop(
                SlaveTransfer { count: self.count, end: SlaveTransferEnd::Stop, buffer_status },
            )
        } else {
            ReceiveAction::Idle
        }
    }

    /// The state after one more received byte, and where the byte goes: the
    /// next free index while there is room, otherwise nowhere and the
    /// receive is marked as overflowed. The poll budget is restored.
    pub open spec fn after_receive(&self) -> (Self, ByteDisposition) {
        if self.count < self.capacity {
            (
                SlaveReceiver { count: (self.count + 1) as usize, remaining: self.timeout, ..*self },
                ByteDisposition::Store(self.count),
            )
        } else {
            (
                SlaveReceiver { overflow: true, remaining: self.timeout, ..*self },
                ByteDisposition::DiscardAndNack,
            )
        }
    }

    /// Accounts for one received byte and restores the poll budget.
    pub fn on_byte(&mut self) -> (r: ByteDisposition)
        requires
            old(self).wf(),
        ensures
            final(self).wf(),
            (*final(self), r) == old(self).after_receive(),
            final(self).remaining == old(self).timeout,
            final(self).timeout == old(self).timeout,
            final(self).capacity == old(self).capacity,
            old(self).count < old(self).capacity ==> r == ByteDisposition::Store(old(self).count)
                && final(self).count == old(self).count + 1 && final(self).overflow == old(
                self,
            ).overflow,
            old(self).count == old(self).capacity ==> r == ByteDisposition::DiscardAndNack
                && final(self).count == old(self).count && final(self).overflow,
    {
        let r = if self.count < self.capacity {
            let index = self.count;
            self.count = self.count + 1;
            ByteDisposition::Store(index)
        } else {
            self.overflow = true;
            ByteDisposition::DiscardAndNack
        };
        self.remaining = self.timeout;
        r
    }
}

/// A byte that the slave writes into `TXDR`.
#[derive(Debug, Copy, Clone, Eq, PartialEq, Structural)]
pub enum TransmitByte {
    /// The byte at this index of the transmit buffer.
    Data(usize),
    /// The configured underflow fill byte: the master reads beyond the buffer.
    Fill(u8),
}

/// What the driver does after a status read during a slave transmit.
#[derive(Debug, Copy, Clone, Eq, PartialEq, Structural)]
pub enum TransmitOutcome {
    /// A repeated START addressed the slave: flush `TXDR` and report.
    RepeatedStart(SlaveTransfer),
    /// The transfer ended: finish the slave transfer and report.
    Finished(SlaveTransfer),
    /// Write this byte into `TXDR`.
    Send(TransmitByte),
    /// Nothing to do; poll again.
    Idle,
}

/// The decision for one status read of a slave transmit.
#[derive(Debug, Copy, Clone, Eq, PartialEq, Structural)]
pub struct TransmitStep {
    /// Clear `NACKF` in `ICR` first.
    pub clear_nack: bool,
    pub outcome: TransmitOutcome,
}

/// State of a slave transmit: bytes are sent while the master reads; the
/// fill byte is sent once the buffer is exhausted.
#[derive(Debug, Copy, Clone, Eq, PartialEq, Structural)]
pub struct SlaveTransmitter {
    /// Bytes of the buffer sent so far.
    pub count: usize,
    /// Length of the transmit buffer.
    pub len: usize,
    /// Whether the fill byte was sent.
    pub underflow: bool,
    /// Whether the master answered with NACK.
    pub saw_nack: bool,
    /// Polls left before the transmit times out.
    pub remaining: u32,
    /// Poll budget restored after every event.
    pub timeout: u32,
    /// Byte sent beyond the end of the buffer.
    pub fill: u8,
}

impl SlaveTransmitter {
    /// Well-formed transmitter state.
    pub open spec fn wf(&self) -> bool {
        &&& self.count <= self.len
        &&& self.remaining <= self.timeout
    }

    /// The transfer report for the given end of transfer.
    pub open spec fn report(&self, end: SlaveTransferEnd) -> SlaveTransfer {
        SlaveTransfer { count: self.count, end, buffer_status: transmit_status(self.underflow) }
    }

    /// The state after the next byte is taken: the next buffer byte while
    /// one is left, the fill byte after that.
    pub open spec fn after_byte(&self) -> (Self, TransmitByte) {
        if self.count < self.len {
            (SlaveTransmitter { count: (self.count + 1) as usize, ..*self }, TransmitByte::Data(self.count))
        } else {
            (SlaveTransmitter { underflow: true, ..*self }, TransmitByte::Fill(self.fill))
        }
    }

    /// Starts a transmit of `len` bytes. The first byte is written into
    /// `TXDR` right after `ADDR` is cleared and is returned here.
    pub fn new(len: usize, timeout: u32, fill: u8) -> (r: (Self, TransmitByte))
        ensures
            r.0.wf(),
            r == (SlaveTransmitter {
                count: 0,
                len,
                underflow: false,
                saw_nack: false,
                remaining: timeout,
                timeout,
                fill,
            }).after_byte(),
    {
        let mut state = SlaveTransmitter {
            count: 0,
            len,
            underflow: false,
            saw_nack: false,
            remaining: timeout,
            timeout,
            fill,
        };
        let byte = state.next_byte();
        (state, byte)
    }

    /// Takes the next byte to send.
    fn next_byte(&mut self) -> (r: TransmitByte)
        requires
            old(self).wf(),
        ensures
            final(self).wf(),
            (*final(self), r) == old(self).after_byte(),
    {
        if self.count < self.len {
            let index = self.count;
            self.count = self.count + 1;
            TransmitByte::Data(index)
        } else {
            self.underflow = true;
            TransmitByte::Fill(self.fill)
        }
    }

    /// Spends one poll of the budget; once it is exhausted the transmit fails
    /// with [`Error::SlaveTimeout`] reporting the bytes sent so far.
    pub fn poll(&mut self) -> (r: Result<(), Error>)
        requires
            old(self).wf(),
        ensures
            final(self).wf(),
            old(self).remaining == 0 ==> r == Err::<(), Error>(
                Error::SlaveTimeout(
                    SlaveTimeout {
                        direction: SlaveDirection::Transmit,
                        count: old(self).count,
                        buffer_status: transmit_status(old(self).underflow),
                    },
                ),
            ) && *final(self) == *old(self),
            old(self).remaining > 0 ==> r is Ok && *final(self) == (SlaveTransmitter {
                remaining: (old(self).remaining - 1) as u32,
                ..*old(self)
            }),
    {
        if self.remaining == 0 {
            return Err(
                Error::SlaveTimeout(
                    SlaveTimeout {
                        direction: SlaveDirection::Transmit,
                        count: self.count,
                        buffer_status: if self.underflow {
                            SlaveBufferStatus::Underflow
                        } else {
                            SlaveBufferStatus::Complete
                        },
                    },
                ),
            );
        }
        self.remaining = self.remaining - 1;
        Ok(())
    }

    /// The decision for a status read, after the bus errors were checked.
    ///
    /// A NACK from the master is recorded first (and its flag cleared). Then a
    /// repeated START ends the transfer, STOP ends it (as a NACK end if one
    /// was seen), the bus going idle after a NACK ends it, and otherwise a
    /// `TXIS` request without NACK sends the next byte.
    pub fn on_status(&mut self, isr: Isr) -> (r: TransmitStep)
        requires
            old(self).wf(),
        ensures
            final(self).wf(),
            r.clear_nack == isr.nackf,
            ({
                let s = if isr.nackf {
                    SlaveTransmitter { saw_nack: true, remaining: old(self).timeout, ..*old(self) }
                } else {
                    *old(self)
                };
                if isr.addr {
                    r.outcome == TransmitOutcome::RepeatedStart(
                        s.report(SlaveTransferEnd::RepeatedStart),
                    ) && *final(self) == s
                } else if isr.stopf {
                    r.outcome == TransmitOutcome::Finished(
                        s.report(
                            if s.saw_nack {
                                SlaveTransferEnd::Nack
                            } else {
                                SlaveTransferEnd::Stop
                            },
                        ),
                    ) && *final(self) == s
                } else if s.saw_nack && !isr.busy {
                    r.outcome == TransmitOutcome::Finished(s.report(SlaveTransferEnd::Nack))
                        && *final(self) == s
                } else if !s.saw_nack && isr.txis {
                    r.outcome == TransmitOutcome::Send(s.after_byte().1) && *final(self) == (
                    SlaveTransmitter { remaining: s.timeout, ..s.after_byte().0 })
                } else {
                    r.outcome == TransmitOutcome::Idle && *final(self) == s
                }
            }),
    {
        if isr.nackf {
            self.saw_nack = true;
            self.remaining = self.timeout;
        }
        let buffer_status = if self.underflow {
            SlaveBufferStatus::Underflow
        } else {
            SlaveBufferStatus::Complete
        };
        let outcome = if isr.addr {
            TransmitOutcome::RepeatedStart(
                SlaveTransfer {
                    count: self.count,
                    end: SlaveTransferEnd::RepeatedStart,
                    buffer_status,
                },
            )
        } else if isr.stopf {
            TransmitOutcome::Finished(
                SlaveTransfer {
                    count: self.count,
                    end: if self.saw_nack {
                        SlaveTransferEnd::Nack
                    } else {
                        SlaveTransferEnd::Stop
                    },
                    buffer_status,
                },
            )
        } else if self.saw_nack && !isr.busy {
            TransmitOutcome::Finished(
                SlaveTransfer { count: self.count, end: SlaveTransferEnd::Nack, buffer_status },
            )
        } else if !self.saw_nack && isr.txis {
            let byte = self.next_byte();
            self.remaining = self.timeout;
            TransmitOutcome::Send(byte)
        } else {
            TransmitOutcome::Idle
        };
        TransmitStep { clear_nack: isr.nackf, outcome }
    }
}

/// The receiver state after `n` received bytes.
pub open spec fn receive_after(start: SlaveReceiver, n: nat) -> SlaveReceiver
    decreases n,
{
    if n == 0 {
        start
    } else {
        receive_after(start, (n - 1) as nat).after_receive().0
    }
}

/// A whole slave receive stores the bytes in the order they arrive: byte
/// `i` of the transfer goes to index `i` while the buffer has room, every
/// later byte is discarded with a NACK, the reported count is the number of
/// bytes stored, and the transfer is reported as overflowed exactly when
/// more bytes arrived than the buffer holds.
pub proof fn lemma_receive_stores_bytes_in_order(capacity: usize, timeout: u32, n: nat)
    ensures
        ({
            let start = SlaveReceiver { count: 0, capacity, overflow: false, remaining: timeout, timeout };
            &&& receive_after(start, n).count == (if n <= capacity { n } else { capacity as nat })
            &&& receive_after(start, n).overflow == (n > capacity)
            &&& receive_after(start, n).capacity == capacity
            &&& receive_after(start, n).timeout == timeout
            &&& forall|i: nat|
                i < n ==> #[trigger] receive_after(start, i).after_receive().1 == (if i < capacity {
                    ByteDisposition::Store(i as usize)
                } else {
                    ByteDisposition::DiscardAndNack
                })
        }),
    decreases n,
{
    let start = SlaveReceiver { count: 0, capacity, overflow: false, remaining: timeout, timeout };
    if n > 0 {
        lemma_receive_stores_bytes_in_order(capacity, timeout, (n - 1) as nat);
        assert forall|i: nat| i < n implies #[trigger] receive_after(start, i).after_receive().1 == (
        if i < capacity {
            ByteDisposition::Store(i as usize)
        } else {
            ByteDisposition::DiscardAndNack
        }) by {
            if i < n - 1 {
            } else {
                assert(i == n - 1);
            }
        }
    }
}

/// The transmitter state after `n` further bytes are taken.
pub open spec fn transmit_after(start: SlaveTransmitter, n: nat) -> SlaveTransmitter
    decreases n,
{
    if n == 0 {
        start
    } else {
        transmit_after(start, (n - 1) as nat).after_byte().0
    }
}

/// A whole slave transmit sends the buffer in order and then the fill byte:
/// byte `i` of the transfer is buffer byte `i` while the buffer lasts and
/// the fill byte after that, the reported count is the number of buffer
/// bytes sent, and the transfer is reported as underflowed exactly when the
/// master read beyond the buffer.
pub proof fn lemma_transmit_sends_buffer_then_fill(len: usize, timeout: u32, fill: u8, n: nat)
    ensures
        ({
            let start = SlaveTransmitter {
                count: 0,
                len,
                underflow: false,
                saw_nack: false,
                remaining: timeout,
                timeout,
                fill,
            };
            &&& transmit_after(start, n).count == (if n <= len { n } else { len as nat })
            &&& transmit_after(start, n).underflow == (n > len)
            &&& transmit_after(start, n).len == len
            &&& transmit_after(start, n).fill == fill
            &&& forall|i: nat|
                i < n ==> #[trigger] transmit_after(start, i).after_byte().1 == (if i < len {
                    TransmitByte::Data(i as usize)
                } else {
                    TransmitByte::Fill(fill)
                })
        }),
    decreases n,
{
    let start = SlaveTransmitter {
        count: 0,
        len,
        underflow: false,
        saw_nack: false,
        remaining: timeout,
        timeout,
        fill,
    };
    if n > 0 {
        lemma_transmit_sends_buffer_then_fill(len, timeout, fill, (n - 1) as nat);
        assert forall|i: nat| i < n implies #[trigger] transmit_after(start, i).after_byte().1 == (
        if i < len {
            TransmitByte::Data(i as usize)
        } else {
            TransmitByte::Fill(fill)
        }) by {
            if i < n - 1 {
            } else {
                assert(i == n - 1);
            }
        }
    }
}

/// Transfer direction of a master operation.
#[derive(Debug, Copy, Clone, Eq, PartialEq, Structural)]
pub enum Direction {
    Read,
    Write,
}

/// How one operation of a master transaction is framed.
#[derive(Debug, Copy, Clone, Eq, PartialEq, Structural)]
pub struct OperationFlags {
    /// Generate a (repeated) START with the address before this operation.
    pub send_start: bool,
    /// The next operation (if any) goes the other way, so this one is the last
    /// of its run and must not end with `RELOAD`.
    pub ends_direction: bool,
    /// This is the last operation: the transaction ends with STOP.
    pub send_stop: bool,
}

/// The framing of an operation from the directions around it.
pub open spec fn spec_operation_flags(
    previous: Option<Direction>,
    direction: Direction,
    next: Option<Direction>,
) -> OperationFlags {
    OperationFlags {
        send_start: previous != Some(direction),
        ends_direction: next != Some(direction),
        send_stop: next is None,
    }
}

/// The framing of an operation: a START is sent when the direction changes
/// (or at the beginning), consecutive operations in one direction are merged
/// into one transfer, and the last operation ends with STOP.
pub fn operation_flags(previous: Option<Direction>, direction: Direction, next: Option<Direction>) -> (r:
    OperationFlags)
    ensures
        r == spec_operation_flags(previous, direction, next),
        previous is None ==> r.send_start,
        previous == Some(direction) ==> !r.send_start,
        previous is Some && previous != Some(direction) ==> r.send_start,
        next is None ==> r.ends_direction && r.send_stop,
        next == Some(direction) ==> !r.ends_direction && !r.send_stop,
        next is Some && next != Some(direction) ==> r.ends_direction && !r.send_stop,
{
    let send_start = match previous {
        Some(p) => p != direction,
        None => true,
    };
    let ends_direction = match next {
        Some(n) => n != direction,
        None => true,
    };
    OperationFlags { send_start, ends_direction, send_stop: next.is_none() }
}

/// The framing rules of a master transaction. The first operation always
/// sends START with the slave address, whatever its direction; a later one
/// sends a (repeated) START exactly when it goes the other way than the one
/// before. An operation closes its run of one direction unless the next one
/// goes the same way, and only the last operation sends STOP.
pub proof fn lemma_operation_framing(
    previous: Option<Direction>,
    direction: Direction,
    next: Option<Direction>,
)
    ensures
        spec_operation_flags(None, direction, next).send_start == true,
        spec_operation_flags(Some(direction), direction, next).send_start == false,
        spec_operation_flags(previous, direction, next).send_start == (previous is None || previous
            != Some(direction)),
        spec_operation_flags(previous, direction, None).send_stop == true,
        spec_operation_flags(previous, direction, None).ends_direction == true,
        spec_operation_flags(previous, direction, Some(direction)).ends_direction == false,
        next is Some ==> spec_operation_flags(previous, direction, next).send_stop == false,
        spec_operation_flags(previous, direction, next).ends_direction == (next is None || next
            != Some(direction)),
{
}

/// In every nonempty transaction the first operation addresses the slave
/// with START, the last one sends STOP, and no other sends STOP.
pub proof fn lemma_transaction_starts_and_stops(directions: Seq<Direction>, i: int)
    requires
        directions.len() > 0,
        0 <= i < directions.len(),
    ensures
        transaction_flags_at(directions, 0).send_start == true,
        transaction_flags_at(directions, directions.len() - 1).send_stop == true,
        transaction_flags_at(directions, i).send_stop == (i == directions.len() - 1),
{
}

/// The framing of operation `i` of a transaction with the given directions.
pub open spec fn transaction_flags_at(directions: Seq<Direction>, i: int) -> OperationFlags {
    spec_operation_flags(
        if i == 0 {
            None
        } else {
            Some(directions[i - 1])
        },
        directions[i],
        if i + 1 < directions.len() {
            Some(directions[i + 1])
        } else {
            None
        },
    )
}

/// Frames every operation of a master transaction.
pub fn plan_transaction(directions: &Vec<Direction>) -> (r: Vec<OperationFlags>)
    ensures
        r@.len() == directions@.len(),
        forall|i: int| 0 <= i < r@.len() ==> r@[i] == transaction_flags_at(directions@, i),
{
    let mut plan: Vec<OperationFlags> = Vec::new();
    let n = directions.len();
    let mut i: usize = 0;
    while i < n
        invariant
            n == directions@.len(),
            i <= n,
            plan@.len() == i,
            forall|k: int| 0 <= k < i ==> plan@[k] == transaction_flags_at(directions@, k),
        decreases n - i,
    {
        let previous = if i == 0 {
            None
        } else {
            Some(directions[i - 1])
        };
        let next = if i + 1 < n {
            Some(directions[i + 1])
        } else {
            None
        };
        plan.push(operation_flags(previous, directions[i], next));
        i = i + 1;
    }
    plan
}

/// One `NBYTES` chunk of a master operation.
#[derive(Debug, Copy, Clone, Eq, PartialEq, Structural)]
pub struct Chunk {
    /// Bytes in this chunk (`NBYTES`).
    pub len: usize,
    /// Set `RELOAD`: more bytes of the same direction follow.
    pub reload: bool,
    /// Set `AUTOEND`: the hardware sends STOP after this chunk.
    pub autoend: bool,
    /// Program the address and generate START before this chunk.
    pub start: bool,
}

/// Number of chunks for `len` bytes: at least one (a zero-length transfer
/// still addresses the slave), at most 255 bytes each.
pub open spec fn chunk_count(len: nat) -> nat {
    if len == 0 {
        1
    } else {
        ((len + 254) / 255) as nat
    }
}

/// Chunk `i` of an operation of `len` bytes with the given framing.
pub open spec fn spec_chunk(len: nat, flags: OperationFlags, i: nat) -> Chunk {
    let n = chunk_count(len);
    let last = i + 1 == n;
    Chunk {
        len: (if len - 255 * i >= 255 {
            255
        } else {
            len - 255 * i
        }) as usize,
        reload: !last || !flags.ends_direction,
        autoend: last && flags.send_stop,
        start: i == 0 && flags.send_start,
    }
}

/// Splits an operation of `len` bytes into `NBYTES` chunks.
///
/// All chunks but the last hold 255 bytes; all but the last set `RELOAD`, and
/// the last sets it only if the next operation continues in the same
/// direction. Only the last chunk of the last operation sets `AUTOEND`, and
/// only the first chunk of an operation that changes direction sends START.
pub fn plan_chunks(len: usize, flags: OperationFlags) -> (r: Vec<Chunk>)
    ensures
        r@.len() == chunk_count(len as nat),
        forall|i: int| 0 <= i < r@.len() ==> r@[i] == spec_chunk(len as nat, flags, i as nat),
{
    let mut chunks: Vec<Chunk> = Vec::new();
    if len == 0 {
        chunks.push(
            Chunk {
                len: 0,
                reload: !flags.ends_direction,
                autoend: flags.send_stop,
                start: flags.send_start,
            },
        );
        return chunks;
    }
    let n: usize = len / 255 + if len % 255 == 0 {
        0
    } else {
        1
    };
    assert(n == chunk_count(len as nat));
    let mut offset: usize = 0;
    let mut i: usize = 0;
    while i < n
        invariant
            len > 0,
            n == chunk_count(len as nat),
            i <= n,
            i < n ==> offset == 255 * i,
            chunks@.len() == i,
            forall|k: int| 0 <= k < i ==> chunks@[k] == spec_chunk(len as nat, flags, k as nat),
        decreases n - i,
    {
        assert(offset < len) by (nonlinear_arith)
            requires
                offset == 255 * i,
                i < n,
                n == (len + 254) / 255,
                len > 0,
        ;
        let rest = len - offset;
        let size = if rest >= 255 {
            255
        } else {
            rest
        };
        let last = i + 1 == n;
        chunks.push(
            Chunk {
                len: size,
                reload: !last || !flags.ends_direction,
                autoend: last && flags.send_stop,
                start: i == 0 && flags.send_start,
            },
        );
        if !last {
            assert(rest >= 255) by (nonlinear_arith)
                requires
                    offset == 255 * i,
                    i + 1 < n,
                    n == (len + 254) / 255,
                    rest == len - offset,
            ;
            offset = offset + 255;
        }
        i = i + 1;
    }
    chunks
}

/// The number of `NBYTES` chunks of an operation of `len` bytes, for a
/// driver that takes the chunks one at a time with [`chunk`].
pub fn number_of_chunks(len: usize) -> (r: usize)
    ensures
        r == chunk_count(len as nat),
{
    if len == 0 {
        1
    } else {
        len / 255 + if len % 255 == 0 {
            0
        } else {
            1
        }
    }
}

/// Chunk `i` of an operation of `len` bytes: what [`plan_chunks`] gives at
/// index `i`, without building the whole plan.
pub fn chunk(len: usize, flags: OperationFlags, i: usize) -> (r: Chunk)
    requires
        i < chunk_count(len as nat),
    ensures
        r == spec_chunk(len as nat, flags, i as nat),
{
    let n = number_of_chunks(len);
    let last = i + 1 == n;
    let size = if len == 0 {
        0
    } else {
        assert(255 * i < len) by (nonlinear_arith)
            requires
                i < n,
                n == (len + 254) / 255,
                len > 0,
        ;
        let rest = len - 255 * i;
        if rest >= 255 {
            255
        } else {
            rest
        }
    };
    Chunk {
        len: size,
        reload: !last || !flags.ends_direction,
        autoend: last && flags.send_stop,
        start: i == 0 && flags.send_start,
    }
}

/// Which flag ends the wait after a chunk.
#[derive(Debug, Copy, Clone, Eq, PartialEq, Structural)]
pub enum ChunkEnd {
    /// `TCR`: the chunk was sent and `NBYTES` may be reloaded.
    TransferCompleteReload,
    /// `STOPF`: the hardware generated STOP.
    Stop,
    /// `TC`: the transfer is complete and the bus is held for a restart.
    TransferComplete,
}

/// The flag that ends the wait after a chunk with the given framing.
pub fn chunk_end(reload: bool, autoend: bool) -> (r: ChunkEnd)
    ensures
        reload ==> r == ChunkEnd::TransferCompleteReload,
        !reload && autoend ==> r == ChunkEnd::Stop,
        !reload && !autoend ==> r == ChunkEnd::TransferComplete,
{
    if reload {
        ChunkEnd::TransferCompleteReload
    } else if autoend {
        ChunkEnd::Stop
    } else {
        ChunkEnd::TransferComplete
    }
}

/// How the bus is recovered after a failed master transaction.
#[derive(Debug, Copy, Clone, Eq, PartialEq, Structural)]
pub enum Recovery {
    /// Another master owns the bus after lost arbitration: only flush
    /// `TXDR` and clear the flags, without generating STOP.
    ClearOnly,
    /// Generate STOP if the bus is busy, clear the flags, and reset the
    /// peripheral if the bus is still busy.
    StopAndReset,
}

/// The recovery for a failed master transaction.
pub fn recovery(error: Error) -> (r: Recovery)
    ensures
        error == Error::ArbitrationLoss <==> r == Recovery::ClearOnly,
{
    if error == Error::ArbitrationLoss {
        Recovery::ClearOnly
    } else {
        Recovery::StopAndReset
    }
}

/// Only the last chunk of an operation may end it: when an operation is not
/// the last of its direction, no chunk generates STOP, and a chunk never asks
/// for both `RELOAD` and `AUTOEND`.
pub proof fn lemma_chunks_never_reload_and_autoend(
    len: nat,
    previous: Option<Direction>,
    direction: Direction,
    next: Option<Direction>,
    i: nat,
)
    requires
        i < chunk_count(len),
    ensures
        !(spec_chunk(len, spec_operation_flags(previous, direction, next), i).reload && spec_chunk(
            len,
            spec_operation_flags(previous, direction, next),
            i,
        ).autoend),
{
}

/// The chunks of an operation cover exactly its bytes: every chunk but the
/// last is full, and the chunk lengths add up to the operation length.
pub proof fn lemma_chunks_cover_operation(len: nat, flags: OperationFlags)
    ensures
        chunk_total(len, flags, chunk_count(len)) == len,
        forall|i: nat|
            i + 1 < chunk_count(len) ==> #[trigger] spec_chunk(len, flags, i).len == 255,
{
    let n = chunk_count(len);
    assert forall|i: nat| i + 1 < n implies #[trigger] spec_chunk(len, flags, i).len == 255 by {
        assert(len - 255 * i >= 255) by (nonlinear_arith)
            requires
                i + 1 < n,
                n == (if len == 0 {
                    1
                } else {
                    (len + 254) / 255
                }),
        ;
    }
    lemma_chunk_total(len, flags, n);
}

/// Sum of the lengths of the first `k` chunks.
pub open spec fn chunk_total(len: nat, flags: OperationFlags, k: nat) -> nat
    decreases k,
{
    if k == 0 {
        0
    } else {
        chunk_total(len, flags, (k - 1) as nat) + spec_chunk(len, flags, (k - 1) as nat).len as nat
    }
}

proof fn lemma_chunk_total(len: nat, flags: OperationFlags, k: nat)
    requires
        k <= chunk_count(len),
    ensures
        chunk_total(len, flags, k) == (if 255 * k <= len {
            255 * k
        } else {
            len
        }),
    decreases k,
{
    if k > 0 {
        lemma_chunk_total(len, flags, (k - 1) as nat);
        assert(255 * (k - 1) <= len) by (nonlinear_arith)
            requires
                k <= (if len == 0 {
                    1
                } else {
                    (len + 254) / 255
                }),
                k > 0,
        ;
        assert(k == chunk_count(len) ==> 255 * k >= len) by (nonlinear_arith)
            requires
                chunk_count(len) == (if len == 0 {
                    1
                } else {
                    (len + 254) / 255
                }),
        ;
    }
}

} // verus!
