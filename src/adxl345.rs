//! Register-level driver of a three-axis accelerometer on a chip-select-framed
//! serial bus. Every operation drives the chip select low for one frame and
//! releases it before returning, on success and on failure alike.
use vstd::prelude::*;
use crate::bus::{BusError, DelayUs, Exchange, Op, OutputPin, SpiBus};
use crate::frame::{
    address_byte, decode_sample, read_address, sample_of, write_address, write_first, Sample,
    SAMPLE_BYTES,
};

pub mod data_format;
pub mod power_ctl;
pub mod register;

verus! {

/// Clock polarity and phase the device expects: idle high, sample on the
/// trailing edge.
pub const SPI_MODE: u8 = 3;

/// Bus clock rate the device is driven at.
pub const SPI_FREQUENCY_HZ: u32 = 1_000_000;

/// Settle time between configuration writes.
pub const SETTLE_US: u32 = 1;

/// One phase of a frame: the exchange moved `op` with the chip select asserted.
pub open spec fn in_frame(e: Exchange, op: Op) -> bool {
    e.op == op && e.selected
}

/// `after` is `before` followed by one read frame of `len` data bytes behind
/// the address byte `a`: the address write and, only if that went through,
/// the data read, both with the chip select asserted. Nothing is retried.
pub open spec fn read_frame_logged(before: Seq<Exchange>, after: Seq<Exchange>, a: u8, len: nat) -> bool {
    let n = before.len() as int;
    &&& after.len() > n
    &&& after.subrange(0, n) == before
    &&& in_frame(after[n], Op::Write(seq![a]))
    &&& after[n].result is Err ==> after.len() == n + 1
    &&& after[n].result is Ok ==> after.len() == n + 2 && in_frame(after[n + 1], Op::Read(len))
}

/// What a read frame logged from position `n` on yields: the error of the
/// address write; else the bytes of the data read, or its error.
pub open spec fn read_outcome(log: Seq<Exchange>, n: int) -> Result<Seq<u8>, BusError> {
    match log[n].result {
        Err(e) => Err(e),
        Ok(_) => match log[n + 1].result {
            Ok(_) => Ok(log[n + 1].reply),
            Err(e) => Err(e),
        },
    }
}

/// The exchange of a write frame of `bytes` with the chip select asserted,
/// ended by `result`.
pub open spec fn write_exchange(bytes: Seq<u8>, result: Result<(), BusError>) -> Exchange {
    Exchange { op: Op::Write(bytes), selected: true, reply: Seq::empty(), result }
}

/// `k` settle delays.
pub open spec fn settles(k: nat) -> Seq<u32> {
    Seq::new(k, |i: int| SETTLE_US)
}

/// The accelerometer on its bus, with its chip-select line.
pub struct Adxl345<S: SpiBus, P: OutputPin> {
    ncs: P,
    spi: S,
}

fn zeros(len: usize) -> (r: Vec<u8>)
    ensures
        r@ == Seq::new(len as nat, |i: int| 0u8),
{
    let mut v: Vec<u8> = Vec::new();
    let mut i: usize = 0;
    while i < len
        invariant
            i <= len,
            v@ == Seq::new(i as nat, |k: int| 0u8),
        decreases len - i,
    {
        v.push(0);
        i = i + 1;
        proof {
            assert(v@ =~= Seq::new(i as nat, |k: int| 0u8));
        }
    }
    v
}

impl<S: SpiBus, P: OutputPin> Adxl345<S, P> {
    /// The bus the driver owns.
    pub closed spec fn bus(&self) -> S {
        self.spi
    }

    /// The chip-select line the driver owns.
    pub closed spec fn chip_select(&self) -> P {
        self.ncs
    }

    /// The chip select is released (driven high): no frame is open.
    pub open spec fn released(&self) -> bool {
        self.chip_select().is_high()
    }

    /// Levels the chip select was driven to, oldest first (`true` for high).
    pub open spec fn cs_history(&self) -> Seq<bool> {
        self.chip_select().history()
    }

    /// Exchanges attempted on the bus, oldest first.
    pub open spec fn bus_log(&self) -> Seq<Exchange> {
        self.bus().log()
    }

    /// The bus clock stays as `other` had it.
    pub open spec fn same_clock(&self, other: &Self) -> bool {
        self.bus().mode() == other.bus().mode() && self.bus().frequency_hz()
            == other.bus().frequency_hz()
    }

    /// Takes ownership of the bus and the chip-select line, sets the bus
    /// clock up for the device and releases the chip select. No exchange
    /// takes place.
    pub fn new(spi: S, ncs: P) -> (r: Self)
        ensures
            r.bus_log() == spi.log(),
            r.bus().mode() == SPI_MODE,
            r.bus().frequency_hz() == SPI_FREQUENCY_HZ,
            r.released(),
            r.cs_history() == ncs.history().push(true),
    {
        let mut spi = spi;
        spi.set_clock(SPI_MODE, SPI_FREQUENCY_HZ);
        let mut ncs = ncs;
        ncs.set_high();
        Adxl345 { ncs, spi }
    }

    /// Gives the bus and the chip-select line back.
    pub fn release(self) -> (r: (S, P))
        ensures
            r.0 == self.bus(),
            r.1 == self.chip_select(),
    {
        (self.spi, self.ncs)
    }

    /// One full-duplex frame: each byte of `data` is sent and replaced by the
    /// byte received in its slot. The chip select is driven low, the one
    /// exchange runs, the chip select is driven high; the bus's result is
    /// returned as it is.
    pub fn transfer(&mut self, data: &mut Vec<u8>) -> (r: Result<(), BusError>)
        ensures
            final(self).released(),
            final(self).same_clock(old(self)),
            final(self).cs_history() == old(self).cs_history() + seq![false, true],
            final(data)@.len() == old(data)@.len(),
            final(self).bus_log() == old(self).bus_log().push(
                Exchange {
                    op: Op::Transfer(old(data)@),
                    selected: true,
                    reply: final(data)@,
                    result: r,
                },
            ),
    {
        self.ncs.set_low();
        let r = self.spi.transfer_in_place(data, Ghost(!self.ncs.is_high()));
        self.ncs.set_high();
        r
    }

    /// Reads `len` consecutive registers starting at `address` in one frame:
    /// the address byte carries the read flag, and the burst flag when more
    /// than one byte is read. A failed address write ends the frame; the
    /// bus's error is returned as it is.
    pub fn read(&mut self, address: u8, len: usize) -> (r: Result<Vec<u8>, BusError>)
        ensures
            final(self).released(),
            final(self).same_clock(old(self)),
            final(self).cs_history() == old(self).cs_history() + seq![false, true],
            read_frame_logged(
                old(self).bus_log(),
                final(self).bus_log(),
                address_byte(address, true, len > 1),
                len as nat,
            ),
            r matches Ok(buf) ==> buf@.len() == len,
            r matches Ok(buf) ==> read_outcome(final(self).bus_log(), old(self).bus_log().len() as int)
                == Ok::<Seq<u8>, BusError>(buf@),
            r matches Err(e) ==> read_outcome(final(self).bus_log(), old(self).bus_log().len() as int)
                == Err::<Seq<u8>, BusError>(e),
    {
        let ghost n = self.spi.log().len() as int;
        let a = read_address(address, len);
        self.ncs.set_low();
        let frame: Vec<u8> = vec![a];
        proof {
            assert(frame@ =~= seq![a]);
        }
        match self.spi.write(frame.as_slice(), Ghost(!self.ncs.is_high())) {
            Ok(()) => {},
            Err(e) => {
                self.ncs.set_high();
                proof {
                    assert(final(self).bus_log().subrange(0, n) =~= old(self).bus_log());
                }
                return Err(e);
            },
        }
        let mut buf = zeros(len);
        let rd = self.spi.read(&mut buf, Ghost(!self.ncs.is_high()));
        self.ncs.set_high();
        proof {
            assert(final(self).bus_log().subrange(0, n) =~= old(self).bus_log());
        }
        match rd {
            Ok(()) => Ok(buf),
            Err(e) => Err(e),
        }
    }

    /// Writes a frame of an address byte followed by data bytes; the burst
    /// flag is or'ed into the address byte when more than one data byte
    /// follows. One exchange between chip select low and high; the bus's
    /// result is returned as it is.
    pub fn write(&mut self, address_data: &mut Vec<u8>) -> (r: Result<(), BusError>)
        requires
            old(address_data)@.len() >= 1,
        ensures
            final(self).released(),
            final(self).same_clock(old(self)),
            final(self).cs_history() == old(self).cs_history() + seq![false, true],
            final(address_data)@ == old(address_data)@.update(
                0,
                write_first(old(address_data)@[0], old(address_data)@.len()),
            ),
            final(self).bus_log() == old(self).bus_log().push(
                write_exchange(final(address_data)@, r),
            ),
    {
        let first = write_address(address_data[0], address_data.len());
        address_data.set(0, first);
        self.ncs.set_low();
        let r = self.spi.write(address_data.as_slice(), Ghost(!self.ncs.is_high()));
        self.ncs.set_high();
        r
    }

    /// Reads one register: a read frame of one byte, whose outcome it returns.
    pub fn read_single(&mut self, address: u8) -> (r: Result<u8, BusError>)
        ensures
            final(self).released(),
            final(self).same_clock(old(self)),
            final(self).cs_history() == old(self).cs_history() + seq![false, true],
            read_frame_logged(
                old(self).bus_log(),
                final(self).bus_log(),
                address_byte(address, true, false),
                1,
            ),
            r matches Ok(b) ==> read_outcome(final(self).bus_log(), old(self).bus_log().len() as int)
                == Ok::<Seq<u8>, BusError>(seq![b]),
            r matches Err(e) ==> read_outcome(final(self).bus_log(), old(self).bus_log().len() as int)
                == Err::<Seq<u8>, BusError>(e),
    {
        let buf = self.read(address, 1)?;
        proof {
            assert(buf@ =~= seq![buf@[0]]);
        }
        Ok(buf[0])
    }

    /// Writes one register: a two-byte frame without the burst flag.
    pub fn write_single(&mut self, address: u8, data: u8) -> (r: Result<(), BusError>)
        ensures
            final(self).released(),
            final(self).same_clock(old(self)),
            final(self).cs_history() == old(self).cs_history() + seq![false, true],
            final(self).bus_log() == old(self).bus_log().push(write_exchange(seq![address, data], r)),
    {
        let mut frame: Vec<u8> = vec![address, data];
        proof {
            assert(frame@ =~= seq![address, data]);
        }
        let r = self.write(&mut frame);
        proof {
            assert(frame@ =~= seq![address, data]);
        }
        r
    }

    /// Reads the six data registers in one burst frame and decodes the sample.
    pub fn poll_measurement(&mut self) -> (r: Result<Sample, BusError>)
        ensures
            final(self).released(),
            final(self).same_clock(old(self)),
            final(self).cs_history() == old(self).cs_history() + seq![false, true],
            read_frame_logged(
                old(self).bus_log(),
                final(self).bus_log(),
                address_byte(register::DATAX0, true, true),
                6,
            ),
            r matches Ok(s) ==> read_outcome(final(self).bus_log(), old(self).bus_log().len() as int)
                matches Ok(b) && s == sample_of(b),
            r matches Err(e) ==> read_outcome(final(self).bus_log(), old(self).bus_log().len() as int)
                == Err::<Seq<u8>, BusError>(e),
    {
        let buf = self.read(register::DATAX0, SAMPLE_BYTES)?;
        Ok(decode_sample(buf.as_slice()))
    }

    /// The configuration sequence: reads the device identification, then
    /// writes the power-control and the data-format register, each in a frame
    /// of its own, with a settle delay after each step. Returns the
    /// identification byte; the first failure ends the sequence and is
    /// returned as the bus reported it.
    pub fn configure<D: DelayUs>(&mut self, delay: &mut D, power: u8, format: u8) -> (r: Result<
        u8,
        BusError,
    >)
        ensures
            final(self).released(),
            final(self).same_clock(old(self)),
            ({
                let n = old(self).bus_log().len() as int;
                let log = final(self).bus_log();
                r matches Ok(id) ==> {
                    &&& log.len() == n + 4
                    &&& read_frame_logged(
                        old(self).bus_log(),
                        log.subrange(0, n + 2),
                        address_byte(register::DEVID, true, false),
                        1,
                    )
                    &&& read_outcome(log, n) == Ok::<Seq<u8>, BusError>(seq![id])
                    &&& in_frame(log[n + 2], Op::Write(seq![register::POWER_CTL, power]))
                    &&& log[n + 2].result is Ok
                    &&& in_frame(log[n + 3], Op::Write(seq![register::DATA_FORMAT, format]))
                    &&& log[n + 3].result is Ok
                    &&& final(self).cs_history() == old(self).cs_history() + seq![
                        false,
                        true,
                        false,
                        true,
                        false,
                        true,
                    ]
                    &&& final(delay).waits() == old(delay).waits() + settles(3)
                }
            }),
            ({
                let n = old(self).bus_log().len() as int;
                let log = final(self).bus_log();
                r matches Err(e) ==> {
                    &&& log.len() > n
                    &&& log.subrange(0, n) == old(self).bus_log()
                    &&& log.last().result == Err::<(), BusError>(e)
                    &&& forall|k: int| n <= k < log.len() - 1 ==> log[k].result is Ok
                    &&& log.len() <= n + 4
                    &&& final(delay).waits() == old(delay).waits() + settles(
                        if log.len() <= n + 2 {
                            0
                        } else {
                            (log.len() - n - 2) as nat
                        },
                    )
                }
            }),
    {
        let ghost n = self.spi.log().len() as int;
        let id = match self.read_single(register::DEVID) {
            Ok(id) => id,
            Err(e) => {
                proof {
                    let log = final(self).bus_log();
                    assert(log.subrange(0, n) =~= old(self).bus_log());
                    assert(final(delay).waits() =~= old(delay).waits() + settles(0));
                }
                return Err(e);
            },
        };
        let ghost after_id = self.spi.log();
        assert(after_id[n].result is Ok);
        assert(after_id.len() == n + 2);
        delay.delay_us(SETTLE_US);
        let w1 = self.write_single(register::POWER_CTL, power);
        proof {
            assert(self.spi.log().subrange(0, n) =~= old(self).bus_log());
            assert(self.spi.log().subrange(0, n + 2) =~= after_id);
        }
        match w1 {
            Ok(()) => {},
            Err(e) => {
                proof {
                    assert(final(delay).waits() =~= old(delay).waits() + settles(1));
                }
                return Err(e);
            },
        }
        let ghost after_w1 = self.spi.log();
        assert(after_w1[n + 2] == write_exchange(seq![register::POWER_CTL, power], w1));
        delay.delay_us(SETTLE_US);
        let w2 = self.write_single(register::DATA_FORMAT, format);
        proof {
            assert(self.spi.log().subrange(0, n) =~= old(self).bus_log());
            assert(self.spi.log().subrange(0, n + 2) =~= after_id);
        }
        match w2 {
            Ok(()) => {},
            Err(e) => {
                proof {
                    assert(final(delay).waits() =~= old(delay).waits() + settles(2));
                }
                return Err(e);
            },
        }
        delay.delay_us(SETTLE_US);
        proof {
            let log = final(self).bus_log();
            assert(log.len() == n + 4);
            assert(log.subrange(0, n + 2) =~= after_id);
            assert(log[n + 2] == after_w1[n + 2]);
            assert(read_outcome(log, n) == read_outcome(after_id, n));
            assert(final(self).cs_history() =~= old(self).cs_history() + seq![
                false,
                true,
                false,
                true,
                false,
                true,
            ]);
            assert(final(delay).waits() =~= old(delay).waits() + settles(3));
        }
        Ok(id)
    }
}

} // verus!
