//! Bits of the data-format register.
use vstd::prelude::*;

verus! {

pub const SELF_TEST: u8 = 0b1000_0000;
pub const SPI: u8 = 0b0100_0000;
pub const INT_INVERT: u8 = 0b0010_0000;
pub const FULL_RES: u8 = 0b0000_1000;
pub const JUSTIFY: u8 = 0b0000_0100;
pub const RANGE_2G: u8 = 0b0000_0000;
pub const RANGE_4G: u8 = 0b0000_0001;
pub const RANGE_8G: u8 = 0b0000_0010;
pub const RANGE_16G: u8 = 0b0000_0011;

} // verus!
