//! Pins of GPIO port 0 and their alternate functions.

use super::{AnalogPermitted, OutputPermitted, Pin, SerialPermitted, TimerSerialPermitted};
use vstd::prelude::*;

verus! {


pub type Pin00 = Pin<0, 0>;
impl OutputPermitted for Pin<0, 0> {}
impl SerialPermitted for Pin<0, 0> {}
impl TimerSerialPermitted for Pin<0, 0> {}

pub type Pin01 = Pin<0, 1>;
impl OutputPermitted for Pin<0, 1> {}
impl SerialPermitted for Pin<0, 1> {}
impl TimerSerialPermitted for Pin<0, 1> {}

pub type Pin02 = Pin<0, 2>;
impl OutputPermitted for Pin<0, 2> {}
impl SerialPermitted for Pin<0, 2> {}
impl TimerSerialPermitted for Pin<0, 2> {}
impl AnalogPermitted for Pin<0, 2> {}

pub type Pin03 = Pin<0, 3>;
impl OutputPermitted for Pin<0, 3> {}
impl SerialPermitted for Pin<0, 3> {}
impl TimerSerialPermitted for Pin<0, 3> {}

pub type Pin04 = Pin<0, 4>;
impl OutputPermitted for Pin<0, 4> {}
impl SerialPermitted for Pin<0, 4> {}
impl TimerSerialPermitted for Pin<0, 4> {}
impl AnalogPermitted for Pin<0, 4> {}

pub type Pin05 = Pin<0, 5>;
impl OutputPermitted for Pin<0, 5> {}
impl SerialPermitted for Pin<0, 5> {}
impl TimerSerialPermitted for Pin<0, 5> {}

pub type Pin06 = Pin<0, 6>;
impl OutputPermitted for Pin<0, 6> {}
impl SerialPermitted for Pin<0, 6> {}
impl TimerSerialPermitted for Pin<0, 6> {}

pub type Pin07 = Pin<0, 7>;
impl OutputPermitted for Pin<0, 7> {}
impl SerialPermitted for Pin<0, 7> {}
impl TimerSerialPermitted for Pin<0, 7> {}
impl AnalogPermitted for Pin<0, 7> {}

pub type Pin08 = Pin<0, 8>;
impl OutputPermitted for Pin<0, 8> {}
impl SerialPermitted for Pin<0, 8> {}
impl TimerSerialPermitted for Pin<0, 8> {}

pub type Pin09 = Pin<0, 9>;
impl OutputPermitted for Pin<0, 9> {}
impl SerialPermitted for Pin<0, 9> {}
impl TimerSerialPermitted for Pin<0, 9> {}
impl AnalogPermitted for Pin<0, 9> {}

pub type Pin10 = Pin<0, 10>;
impl OutputPermitted for Pin<0, 10> {}
impl SerialPermitted for Pin<0, 10> {}
impl TimerSerialPermitted for Pin<0, 10> {}

pub type Pin11 = Pin<0, 11>;
impl OutputPermitted for Pin<0, 11> {}
impl TimerSerialPermitted for Pin<0, 11> {}
impl AnalogPermitted for Pin<0, 11> {}

pub type Pin12 = Pin<0, 12>;
impl OutputPermitted for Pin<0, 12> {}
impl TimerSerialPermitted for Pin<0, 12> {}

pub type Pin13 = Pin<0, 13>;
impl OutputPermitted for Pin<0, 13> {}
impl TimerSerialPermitted for Pin<0, 13> {}
impl AnalogPermitted for Pin<0, 13> {}

pub type Pin14 = Pin<0, 14>;
impl OutputPermitted for Pin<0, 14> {}

pub type Pin15 = Pin<0, 15>;
impl OutputPermitted for Pin<0, 15> {}

} // verus!
