//! Bits of the power-control register.
use vstd::prelude::*;

verus! {

pub const LINK: u8 = 0b0010_0000;
pub const AUTO_SLEEP: u8 = 0b0001_0000;
pub const MEASURE: u8 = 0b0000_1000;
pub const SLEEP: u8 = 0b0000_0100;
pub const WAKEUP_1HZ: u8 = 0b0000_0011;
pub const WAKEUP_2HZ: u8 = 0b0000_0010;
pub const WAKEUP_4HZ: u8 = 0b0000_0001;
pub const WAKEUP_8HZ: u8 = 0b0000_0000;

} // verus!
