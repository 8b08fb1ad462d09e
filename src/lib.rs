//! Cooperative device-control core: a register-level accelerometer driver over a
//! chip-select-framed serial bus, a round-robin task scheduler, and the two
//! inter-task primitives (a bounded FIFO channel and a latest-value signal).

pub mod adxl345;
pub mod bus;
pub mod channel;
pub mod executor;
pub mod frame;
pub mod signal;
pub mod tasks;
