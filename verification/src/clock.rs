//! Frequencies used throughout the clock tree.

use vstd::prelude::*;

verus! {

/// A frequency in hertz.
#[derive(Clone, Copy, Debug, PartialEq, Eq, Structural)]
pub struct Hertz(pub u32);

impl Hertz {
    /// Frequency of `value` hertz.
    pub fn hz(value: u32) -> (r: Hertz)
        ensures
            r.0 == value,
    {
        Hertz(value)
    }

    /// Frequency of `value` kilohertz.
    pub fn khz(value: u32) -> (r: Hertz)
        requires
            value * 1000 <= u32::MAX,
        ensures
            r.0 == value * 1000,
    {
        Hertz(value * 1000)
    }

    /// Frequency of `value` megahertz.
    pub fn mhz(value: u32) -> (r: Hertz)
        requires
            value * 1_000_000 <= u32::MAX,
        ensures
            r.0 == value * 1_000_000,
    {
        Hertz(value * 1_000_000)
    }

    /// The raw number of hertz.
    pub fn raw(self) -> (r: u32)
        ensures
            r == self.0,
    {
        self.0
    }
}

} // verus!
