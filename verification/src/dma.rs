//! Direct memory access controller: channel identities, transfer validation
//! and the decoding of the channel status register.
//!
//! Every channel has four consecutive 32-bit registers: destination, source,
//! length minus one, and configuration. Bit 0 of the configuration enables the
//! channel. The status register reports the ready flags of the four channels
//! in bits 0..=3 and their bus errors in bits 8..=11.

use core::marker::PhantomData;
use vstd::prelude::*;

verus! {

/// Marker trait implemented only by the channel identities of this crate.
pub trait Sealed {}

/// Identity of one of the four DMA channels.
pub trait Id: Sealed {
    /// Zero-based channel number.
    const INDEX: u8;
}

/// Channel 1.
pub enum Ch1 {
    Ch1,
}

/// Channel 2.
pub enum Ch2 {
    Ch2,
}

/// Channel 3.
pub enum Ch3 {
    Ch3,
}

/// Channel 4.
pub enum Ch4 {
    Ch4,
}

impl Sealed for Ch1 {}

impl Sealed for Ch2 {}

impl Sealed for Ch3 {}

impl Sealed for Ch4 {}

impl Id for Ch1 {
    const INDEX: u8 = 0;
}

impl Id for Ch2 {
    const INDEX: u8 = 1;
}

impl Id for Ch3 {
    const INDEX: u8 = 2;
}

impl Id for Ch4 {
    const INDEX: u8 = 3;
}

/// Exclusive access to one DMA channel.
pub struct Channel<CHANNEL: Id> {
    _private: PhantomData<CHANNEL>,
}

/// Channel 1.
pub type Channel1 = Channel<Ch1>;

/// Channel 2.
pub type Channel2 = Channel<Ch2>;

/// Channel 3.
pub type Channel3 = Channel<Ch3>;

/// Channel 4.
pub type Channel4 = Channel<Ch4>;

/// The four channels of the controller.
pub struct Channels {
    pub channel1: Channel1,
    pub channel2: Channel2,
    pub channel3: Channel3,
    pub channel4: Channel4,
}

impl Channels {
    /// One token for each channel. Only the controller driver creates them,
    /// once, when it splits the peripheral.
    pub fn new() -> Self {
        Channels {
            channel1: Channel::new(),
            channel2: Channel::new(),
            channel3: Channel::new(),
            channel4: Channel::new(),
        }
    }
}

/// DMA errors.
#[derive(Debug, Clone, Copy, PartialEq, Eq, Structural)]
pub enum Error {
    EmptyBuffer,
    TransferTooLong,
    Timeout,
    Bus,
    InvalidChannel,
}

/// The register numbers of a channel block.
pub const REGISTER_DESTINATION: u8 = 0;

pub const REGISTER_SOURCE: u8 = 1;

pub const REGISTER_LENGTH: u8 = 2;

pub const REGISTER_CONFIG: u8 = 3;

/// Bit 0 of the configuration register: enable the channel.
pub const CONFIG_ENABLE: u32 = 1;

/// The value of the length register for a transfer of `length` bytes, when
/// the length is acceptable.
pub open spec fn spec_length_check(length: usize) -> Result<u32, Error> {
    if length == 0 {
        Err(Error::EmptyBuffer)
    } else if length > u32::MAX {
        Err(Error::TransferTooLong)
    } else {
        Ok((length - 1) as u32)
    }
}

impl<CHANNEL: Id> Channel<CHANNEL> {
    /// A channel token.
    pub fn new() -> Self {
        Channel { _private: PhantomData }
    }

    /// The zero-based number of this channel.
    pub fn index(&self) -> (r: u8)
        ensures
            r == CHANNEL::INDEX,
    {
        CHANNEL::INDEX
    }
}

/// Checks the byte length of a transfer and computes the length register:
/// the hardware counts `length - 1`, so an empty transfer cannot be expressed,
/// and the counter has 32 bits.
pub fn transfer_length(length: usize) -> (r: Result<u32, Error>)
    ensures
        r == spec_length_check(length),
{
    if length == 0 {
        return Err(Error::EmptyBuffer);
    }
    if length as u64 > u32::MAX as u64 {
        return Err(Error::TransferTooLong);
    }
    Ok((length - 1) as u32)
}

/// The configuration written to start a channel: the caller's configuration
/// with the enable bit set.
pub fn start_config(config: u32) -> (r: u32)
    ensures
        r == config | CONFIG_ENABLE,
        r & CONFIG_ENABLE == CONFIG_ENABLE,
        r & !CONFIG_ENABLE == config & !CONFIG_ENABLE,
{
    let r = config | CONFIG_ENABLE;
    assert(r & 1 == 1 && r & !1u32 == config & !1u32) by (bit_vector)
        requires
            r == config | 1u32,
    ;
    r
}

/// The word offset of register `register` of channel `channel` from the
/// controller base: four registers per channel.
pub fn channel_register_offset(channel: u8, register: u8) -> (r: usize)
    requires
        channel < 4,
        register < 4,
    ensures
        r == channel * 4 + register,
        r < 16,
{
    channel as usize * 4 + register as usize
}

/// The outcome of one status read for a channel: a bus error, or whether the
/// channel is ready (its transfer is complete).
pub open spec fn spec_channel_status(status: u32, index: u8) -> Result<bool, Error> {
    if status & (1u32 << (8 + index) as u32) != 0 {
        Err(Error::Bus)
    } else {
        Ok(status & (1u32 << index as u32) != 0)
    }
}

/// Decodes the status register for one channel. A bus error takes
/// precedence; the driver then stops the channel.
pub fn channel_status(status: u32, index: u8) -> (r: Result<bool, Error>)
    requires
        index < 4,
    ensures
        r == spec_channel_status(status, index),
{
    let bus = 1u32 << (8 + index) as u32;
    if status & bus != 0 {
        return Err(Error::Bus);
    }
    Ok(status & (1u32 << index as u32) != 0)
}

} // verus!
