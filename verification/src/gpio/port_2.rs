//! Pins of GPIO port 2 and their alternate functions.

use super::{OutputPermitted, Pin, SerialPermitted, TimerSerialPermitted};
use vstd::prelude::*;

verus! {


pub type Pin00 = Pin<2, 0>;
impl OutputPermitted for Pin<2, 0> {}
impl SerialPermitted for Pin<2, 0> {}
impl TimerSerialPermitted for Pin<2, 0> {}

pub type Pin01 = Pin<2, 1>;
impl OutputPermitted for Pin<2, 1> {}
impl SerialPermitted for Pin<2, 1> {}
impl TimerSerialPermitted for Pin<2, 1> {}

pub type Pin02 = Pin<2, 2>;
impl OutputPermitted for Pin<2, 2> {}
impl SerialPermitted for Pin<2, 2> {}
impl TimerSerialPermitted for Pin<2, 2> {}

pub type Pin03 = Pin<2, 3>;
impl OutputPermitted for Pin<2, 3> {}
impl SerialPermitted for Pin<2, 3> {}
impl TimerSerialPermitted for Pin<2, 3> {}

pub type Pin04 = Pin<2, 4>;
impl OutputPermitted for Pin<2, 4> {}
impl SerialPermitted for Pin<2, 4> {}

pub type Pin05 = Pin<2, 5>;
impl OutputPermitted for Pin<2, 5> {}
impl SerialPermitted for Pin<2, 5> {}

pub type Pin06 = Pin<2, 6>;
impl OutputPermitted for Pin<2, 6> {}
impl SerialPermitted for Pin<2, 6> {}
impl TimerSerialPermitted for Pin<2, 6> {}

pub type Pin07 = Pin<2, 7>;
impl OutputPermitted for Pin<2, 7> {}
impl TimerSerialPermitted for Pin<2, 7> {}

} // verus!
