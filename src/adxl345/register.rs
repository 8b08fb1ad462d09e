//! Register addresses of the accelerometer.
use vstd::prelude::*;

verus! {

/// Device identification (read only).
pub const DEVID: u8 = 0x00;
/// Power control: link, auto-sleep, measure, sleep, wake-up rate.
pub const POWER_CTL: u8 = 0x2D;
/// Data format: self test, serial mode, interrupt polarity, resolution,
/// justification, range.
pub const DATA_FORMAT: u8 = 0x31;
/// X axis, low byte; the six data registers follow in order.
pub const DATAX0: u8 = 0x32;
/// X axis, high byte.
pub const DATAX1: u8 = 0x33;
/// Y axis, low byte.
pub const DATAY0: u8 = 0x34;
/// Y axis, high byte.
pub const DATAY1: u8 = 0x35;
/// Z axis, low byte.
pub const DATAZ0: u8 = 0x36;
/// Z axis, high byte.
pub const DATAZ1: u8 = 0x37;

} // verus!
