//! Pins of GPIO port 1 and their alternate functions.

use super::{AnalogPermitted, OutputPermitted, Pin, SerialPermitted, TimerSerialPermitted};
use vstd::prelude::*;

verus! {


pub type Pin00 = Pin<1, 0>;
impl OutputPermitted for Pin<1, 0> {}
impl SerialPermitted for Pin<1, 0> {}
impl TimerSerialPermitted for Pin<1, 0> {}

pub type Pin01 = Pin<1, 1>;
impl OutputPermitted for Pin<1, 1> {}
impl SerialPermitted for Pin<1, 1> {}
impl TimerSerialPermitted for Pin<1, 1> {}

pub type Pin02 = Pin<1, 2>;
impl OutputPermitted for Pin<1, 2> {}
impl SerialPermitted for Pin<1, 2> {}
impl TimerSerialPermitted for Pin<1, 2> {}

pub type Pin03 = Pin<1, 3>;
impl OutputPermitted for Pin<1, 3> {}
impl SerialPermitted for Pin<1, 3> {}
impl TimerSerialPermitted for Pin<1, 3> {}

pub type Pin04 = Pin<1, 4>;
impl OutputPermitted for Pin<1, 4> {}
impl SerialPermitted for Pin<1, 4> {}
impl TimerSerialPermitted for Pin<1, 4> {}

pub type Pin05 = Pin<1, 5>;
impl OutputPermitted for Pin<1, 5> {}
impl SerialPermitted for Pin<1, 5> {}
impl TimerSerialPermitted for Pin<1, 5> {}
impl AnalogPermitted for Pin<1, 5> {}

pub type Pin06 = Pin<1, 6>;
impl OutputPermitted for Pin<1, 6> {}
impl SerialPermitted for Pin<1, 6> {}
impl TimerSerialPermitted for Pin<1, 6> {}

pub type Pin07 = Pin<1, 7>;
impl OutputPermitted for Pin<1, 7> {}
impl SerialPermitted for Pin<1, 7> {}
impl AnalogPermitted for Pin<1, 7> {}

pub type Pin08 = Pin<1, 8>;
impl OutputPermitted for Pin<1, 8> {}
impl SerialPermitted for Pin<1, 8> {}

pub type Pin09 = Pin<1, 9>;
impl OutputPermitted for Pin<1, 9> {}
impl SerialPermitted for Pin<1, 9> {}

pub type Pin10 = Pin<1, 10>;
impl OutputPermitted for Pin<1, 10> {}
impl SerialPermitted for Pin<1, 10> {}
impl AnalogPermitted for Pin<1, 10> {}

pub type Pin11 = Pin<1, 11>;
impl OutputPermitted for Pin<1, 11> {}
impl SerialPermitted for Pin<1, 11> {}
impl AnalogPermitted for Pin<1, 11> {}

pub type Pin12 = Pin<1, 12>;
impl OutputPermitted for Pin<1, 12> {}
impl SerialPermitted for Pin<1, 12> {}
impl TimerSerialPermitted for Pin<1, 12> {}
impl AnalogPermitted for Pin<1, 12> {}

pub type Pin13 = Pin<1, 13>;
impl OutputPermitted for Pin<1, 13> {}
impl SerialPermitted for Pin<1, 13> {}
impl TimerSerialPermitted for Pin<1, 13> {}
impl AnalogPermitted for Pin<1, 13> {}

pub type Pin14 = Pin<1, 14>;
impl OutputPermitted for Pin<1, 14> {}
impl SerialPermitted for Pin<1, 14> {}
impl TimerSerialPermitted for Pin<1, 14> {}

pub type Pin15 = Pin<1, 15>;
impl OutputPermitted for Pin<1, 15> {}
impl SerialPermitted for Pin<1, 15> {}
impl TimerSerialPermitted for Pin<1, 15> {}

} // verus!
