//! The 32-bit timer with capture/compare channels (`Timer32_2`).
//!
//! The counter, its clock and its timing are those of the basic 32-bit
//! timer; in addition each of four channels can produce a PWM signal that
//! changes level when the counter passes the channel's compare value.

use vstd::prelude::*;

pub use crate::timer32_0::{
    calculate_timing, clock_frequency, ClockSource, Config, CountMode, Error, Event, Period,
};

verus! {

/// A capture/compare channel.
#[derive(Clone, Copy, Debug, PartialEq, Eq, Structural)]
pub enum Channel {
    Channel0,
    Channel1,
    Channel2,
    Channel3,
}

impl Channel {
    /// The channel's register block number (`CHx_CNTR`, `CHx_OCR` with
    /// `x` = number).
    pub fn register_number(self) -> (r: u8)
        ensures
            self == Channel::Channel0 ==> r == 1,
            self == Channel::Channel1 ==> r == 2,
            self == Channel::Channel2 ==> r == 3,
            self == Channel::Channel3 ==> r == 4,
    {
        match self {
            Channel::Channel0 => 1,
            Channel::Channel1 => 2,
            Channel::Channel2 => 3,
            Channel::Channel3 => 4,
        }
    }
}

/// Level of a PWM output.
#[derive(Clone, Copy, Debug, PartialEq, Eq, Structural)]
pub enum PwmPolarity {
    Direct,
    Inverted,
}

impl PwmPolarity {
    /// The `PWM_INV` bit.
    pub fn inverted(self) -> (r: bool)
        ensures
            r == (self == PwmPolarity::Inverted),
    {
        match self {
            PwmPolarity::Direct => false,
            PwmPolarity::Inverted => true,
        }
    }
}

/// The interrupt flag of an event: bit 0 for overflow, bit 1 for underflow.
pub fn event_mask(event: Event) -> (r: u32)
    ensures
        event == Event::Overflow ==> r == 1,
        event == Event::Underflow ==> r == 2,
{
    crate::timer32_0::event_mask(event)
}

/// The flags of both events.
pub fn all_events_mask() -> (r: u32)
    ensures
        r == 3,
{
    let r = event_mask(Event::Overflow) | event_mask(Event::Underflow);
    assert(1u32 | 2u32 == 3u32) by (bit_vector);
    r
}

} // verus!
