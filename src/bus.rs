//! Capabilities the driver is written against: a synchronous serial bus, a
//! digital output line (the chip select) and a delay. Each carries a model
//! that the driver's contracts speak of. Recording doubles of the bus and the
//! line, which stand in for hardware, implement them here.
use vstd::prelude::*;

verus! {

/// A failed bus exchange.
#[derive(Clone, Copy, Debug, PartialEq, Eq, Structural)]
pub enum BusError {
    /// The exchange did not complete in time.
    Timeout,
    /// The peripheral reported a fault (overrun, mode fault, framing).
    Fault,
}

/// What one bus exchange moved.
pub enum Op {
    /// Bytes clocked out.
    Write(Seq<u8>),
    /// A count of bytes clocked in.
    Read(nat),
    /// Bytes clocked out while as many were clocked in.
    Transfer(Seq<u8>),
}

/// One exchange a bus attempted: what it moved, whether the chip select was
/// asserted (low) meanwhile, the bytes it clocked in, and how it ended.
pub struct Exchange {
    pub op: Op,
    pub selected: bool,
    pub reply: Seq<u8>,
    pub result: Result<(), BusError>,
}

/// A full-duplex synchronous serial bus. Each exchange is given, as a ghost
/// argument, whether the chip select is asserted while it runs.
pub trait SpiBus {
    /// Every exchange attempted on this bus, oldest first.
    spec fn log(&self) -> Seq<Exchange>;

    /// The clock mode (polarity and phase) the bus runs in.
    spec fn mode(&self) -> u8;

    /// The clock rate the bus runs at.
    spec fn frequency_hz(&self) -> u32;

    /// Sets the clock mode and rate; no exchange takes place.
    fn set_clock(&mut self, mode: u8, frequency_hz: u32)
        ensures
            final(self).mode() == mode,
            final(self).frequency_hz() == frequency_hz,
            final(self).log() == old(self).log(),
    ;

    /// Clocks out `words`: one exchange, logged with its result.
    fn write(&mut self, words: &[u8], selected: Ghost<bool>) -> (r: Result<(), BusError>)
        ensures
            final(self).mode() == old(self).mode(),
            final(self).frequency_hz() == old(self).frequency_hz(),
            final(self).log() == old(self).log().push(
                Exchange { op: Op::Write(words@), selected: selected@, reply: Seq::empty(), result: r },
            ),
    ;

    /// Clocks in `words.len()` bytes into `words`: one exchange, logged with
    /// what ended in `words` and its result.
    fn read(&mut self, words: &mut Vec<u8>, selected: Ghost<bool>) -> (r: Result<(), BusError>)
        ensures
            final(words)@.len() == old(words)@.len(),
            final(self).mode() == old(self).mode(),
            final(self).frequency_hz() == old(self).frequency_hz(),
            final(self).log() == old(self).log().push(
                Exchange {
                    op: Op::Read(old(words)@.len()),
                    selected: selected@,
                    reply: final(words)@,
                    result: r,
                },
            ),
    ;

    /// Exchanges `words` in place: each byte sent is replaced by the byte
    /// received in its slot. One exchange, logged with its result.
    fn transfer_in_place(&mut self, words: &mut Vec<u8>, selected: Ghost<bool>) -> (r: Result<
        (),
        BusError,
    >)
        ensures
            final(words)@.len() == old(words)@.len(),
            final(self).mode() == old(self).mode(),
            final(self).frequency_hz() == old(self).frequency_hz(),
            final(self).log() == old(self).log().push(
                Exchange {
                    op: Op::Transfer(old(words)@),
                    selected: selected@,
                    reply: final(words)@,
                    result: r,
                },
            ),
    ;
}

/// A digital output line.
pub trait OutputPin {
    /// The level the line is driven to.
    spec fn is_high(&self) -> bool;

    /// Every level the line was driven to, oldest first (`true` for high).
    spec fn history(&self) -> Seq<bool>;

    fn set_low(&mut self)
        ensures
            !final(self).is_high(),
            final(self).history() == old(self).history().push(false),
    ;

    fn set_high(&mut self)
        ensures
            final(self).is_high(),
            final(self).history() == old(self).history().push(true),
    ;
}

/// A blocking delay, which a cooperative runtime turns into a suspension.
pub trait DelayUs {
    /// Every wait, in microseconds, oldest first.
    spec fn waits(&self) -> Seq<u32>;

    fn delay_us(&mut self, us: u32)
        ensures
            final(self).waits() == old(self).waits().push(us),
    ;
}

/// A bus double: it records what is sent, answers reads from a script of
/// reply bytes, times out when an exchange asks for more replies than the
/// script has left, and faults once a budget of exchanged bytes is spent.
pub struct ScriptedBus {
    sent_log: Vec<u8>,
    received_log: Vec<u8>,
    replies: Vec<u8>,
    next: usize,
    budget: usize,
    clock_mode: u8,
    clock_hz: u32,
    exchanges: Ghost<Seq<Exchange>>,
}

impl ScriptedBus {
    /// A bus that answers with `replies` and never faults; its clock is not
    /// set up yet (mode 0, rate 0).
    pub fn new(replies: Vec<u8>) -> (r: ScriptedBus)
        ensures
            r.sent() == Seq::<u8>::empty(),
            r.received() == Seq::<u8>::empty(),
            r.log() == Seq::<Exchange>::empty(),
            r.script() == replies@,
            r.budget() == usize::MAX,
            r.mode() == 0,
            r.frequency_hz() == 0,
    {
        ScriptedBus::failing_after(replies, usize::MAX)
    }

    /// A bus that answers with `replies` and faults on the first exchange
    /// that would take its byte count past `budget`.
    pub fn failing_after(replies: Vec<u8>, budget: usize) -> (r: ScriptedBus)
        ensures
            r.sent() == Seq::<u8>::empty(),
            r.received() == Seq::<u8>::empty(),
            r.log() == Seq::<Exchange>::empty(),
            r.script() == replies@,
            r.budget() == budget,
            r.mode() == 0,
            r.frequency_hz() == 0,
    {
        ScriptedBus {
            sent_log: Vec::new(),
            received_log: Vec::new(),
            replies,
            next: 0,
            budget,
            clock_mode: 0,
            clock_hz: 0,
            exchanges: Ghost(Seq::empty()),
        }
    }

    /// The bytes clocked out so far.
    pub closed spec fn sent(&self) -> Seq<u8> {
        self.sent_log@
    }

    /// The bytes clocked in so far.
    pub closed spec fn received(&self) -> Seq<u8> {
        self.received_log@
    }

    /// The reply bytes not yet handed out.
    pub closed spec fn script(&self) -> Seq<u8> {
        if self.next <= self.replies.len() {
            self.replies@.skip(self.next as int)
        } else {
            Seq::empty()
        }
    }

    /// How many more bytes the bus exchanges before it faults.
    pub closed spec fn budget(&self) -> usize {
        self.budget
    }

    /// The bytes sent so far.
    pub fn sent_bytes(&self) -> (r: Vec<u8>)
        ensures
            r@ == self.sent(),
    {
        self.sent_log.clone()
    }

    /// The bytes received so far.
    pub fn received_bytes(&self) -> (r: Vec<u8>)
        ensures
            r@ == self.received(),
    {
        self.received_log.clone()
    }

    /// The clock mode and rate the bus was set up with.
    pub fn clock(&self) -> (r: (u8, u32))
        ensures
            r == (self.mode(), self.frequency_hz()),
    {
        (self.clock_mode, self.clock_hz)
    }

    fn next_reply(&mut self) -> (r: u8)
        ensures
            final(self).sent() == old(self).sent(),
            final(self).received() == old(self).received(),
            final(self).budget() == old(self).budget(),
            final(self).log() == old(self).log(),
            final(self).mode() == old(self).mode(),
            final(self).frequency_hz() == old(self).frequency_hz(),
            old(self).script().len() > 0 ==> r == old(self).script()[0]
                && final(self).script() == old(self).script().drop_first(),
            old(self).script().len() == 0 ==> r == 0 && final(self).script() == old(self).script(),
    {
        if self.next < self.replies.len() {
            let b = self.replies[self.next];
            self.next = self.next + 1;
            proof {
                assert(final(self).script() =~= old(self).script().drop_first());
            }
            b
        } else {
            proof {
                assert(final(self).script() =~= old(self).script());
            }
            0
        }
    }

    fn remaining(&self) -> (r: usize)
        ensures
            r == self.script().len(),
    {
        if self.next <= self.replies.len() {
            self.replies.len() - self.next
        } else {
            0
        }
    }

    fn spend(&mut self, n: usize) -> (ok: bool)
        ensures
            ok == (n <= old(self).budget()),
            final(self).sent() == old(self).sent(),
            final(self).received() == old(self).received(),
            final(self).script() == old(self).script(),
            final(self).log() == old(self).log(),
            final(self).mode() == old(self).mode(),
            final(self).frequency_hz() == old(self).frequency_hz(),
            ok ==> final(self).budget() == old(self).budget() - n,
            !ok ==> final(self).budget() == 0,
    {
        if n <= self.budget {
            self.budget = self.budget - n;
            true
        } else {
            self.budget = 0;
            false
        }
    }

    fn clock_out(&mut self, words: &[u8]) -> (r: Result<(), BusError>)
        ensures
            final(self).log() == old(self).log(),
            final(self).mode() == old(self).mode(),
            final(self).frequency_hz() == old(self).frequency_hz(),
            r is Ok ==> final(self).sent() == old(self).sent() + words@,
    {
        if !self.spend(words.len()) {
            return Err(BusError::Fault);
        }
        let mut i: usize = 0;
        while i < words.len()
            invariant
                i <= words@.len(),
                self.sent_log@ == old(self).sent_log@ + words@.subrange(0, i as int),
                self.exchanges == old(self).exchanges,
                self.clock_mode == old(self).clock_mode,
                self.clock_hz == old(self).clock_hz,
            decreases words@.len() - i,
        {
            self.sent_log.push(words[i]);
            i = i + 1;
            proof {
                assert(words@.subrange(0, i as int) =~= words@.subrange(0, i - 1).push(words@[i - 1]));
            }
        }
        proof {
            assert(words@.subrange(0, i as int) =~= words@);
        }
        Ok(())
    }

    fn clock_in(&mut self, words: &mut Vec<u8>) -> (r: Result<(), BusError>)
        ensures
            final(words)@.len() == old(words)@.len(),
            final(self).log() == old(self).log(),
            final(self).mode() == old(self).mode(),
            final(self).frequency_hz() == old(self).frequency_hz(),
            r is Ok ==> final(self).received() == old(self).received() + final(words)@,
    {
        if !self.spend(words.len()) {
            return Err(BusError::Fault);
        }
        if self.remaining() < words.len() {
            return Err(BusError::Timeout);
        }
        let mut i: usize = 0;
        while i < words.len()
            invariant
                i <= words@.len(),
                words@.len() == old(words)@.len(),
                self.received_log@ == old(self).received_log@ + words@.subrange(0, i as int),
                self.exchanges == old(self).exchanges,
                self.clock_mode == old(self).clock_mode,
                self.clock_hz == old(self).clock_hz,
            decreases words@.len() - i,
        {
            let b = self.next_reply();
            words.set(i, b);
            self.received_log.push(b);
            i = i + 1;
            proof {
                assert(words@.subrange(0, i as int) =~= words@.subrange(0, i - 1).push(b));
            }
        }
        proof {
            assert(words@.subrange(0, i as int) =~= words@);
        }
        Ok(())
    }

    fn exchange(&mut self, words: &mut Vec<u8>) -> (r: Result<(), BusError>)
        ensures
            final(words)@.len() == old(words)@.len(),
            final(self).log() == old(self).log(),
            final(self).mode() == old(self).mode(),
            final(self).frequency_hz() == old(self).frequency_hz(),
            r is Ok ==> final(self).sent() == old(self).sent() + old(words)@,
            r is Ok ==> final(self).received() == old(self).received() + final(words)@,
    {
        if !self.spend(words.len()) {
            return Err(BusError::Fault);
        }
        if self.remaining() < words.len() {
            return Err(BusError::Timeout);
        }
        let ghost out = words@;
        let mut i: usize = 0;
        while i < words.len()
            invariant
                i <= words@.len(),
                words@.len() == out.len(),
                out == old(words)@,
                forall|k: int| i <= k < out.len() ==> words@[k] == out[k],
                self.sent_log@ == old(self).sent_log@ + out.subrange(0, i as int),
                self.received_log@ == old(self).received_log@ + words@.subrange(0, i as int),
                self.exchanges == old(self).exchanges,
                self.clock_mode == old(self).clock_mode,
                self.clock_hz == old(self).clock_hz,
            decreases words@.len() - i,
        {
            let b_out = words[i];
            self.sent_log.push(b_out);
            let b = self.next_reply();
            words.set(i, b);
            self.received_log.push(b);
            i = i + 1;
            proof {
                assert(out.subrange(0, i as int) =~= out.subrange(0, i - 1).push(b_out));
                assert(words@.subrange(0, i as int) =~= words@.subrange(0, i - 1).push(b));
            }
        }
        proof {
            assert(out.subrange(0, i as int) =~= out);
            assert(words@.subrange(0, i as int) =~= words@);
        }
        Ok(())
    }
}

impl SpiBus for ScriptedBus {
    closed spec fn log(&self) -> Seq<Exchange> {
        self.exchanges@
    }

    closed spec fn mode(&self) -> u8 {
        self.clock_mode
    }

    closed spec fn frequency_hz(&self) -> u32 {
        self.clock_hz
    }

    fn set_clock(&mut self, mode: u8, frequency_hz: u32) {
        self.clock_mode = mode;
        self.clock_hz = frequency_hz;
    }

    fn write(&mut self, words: &[u8], selected: Ghost<bool>) -> (r: Result<(), BusError>) {
        let r = self.clock_out(words);
        self.exchanges = Ghost(
            self.exchanges@.push(
                Exchange { op: Op::Write(words@), selected: selected@, reply: Seq::empty(), result: r },
            ),
        );
        r
    }

    fn read(&mut self, words: &mut Vec<u8>, selected: Ghost<bool>) -> (r: Result<(), BusError>) {
        let ghost n = words@.len();
        let r = self.clock_in(words);
        self.exchanges = Ghost(
            self.exchanges@.push(
                Exchange { op: Op::Read(n), selected: selected@, reply: words@, result: r },
            ),
        );
        r
    }

    fn transfer_in_place(&mut self, words: &mut Vec<u8>, selected: Ghost<bool>) -> (r: Result<
        (),
        BusError,
    >) {
        let ghost out = words@;
        let r = self.exchange(words);
        self.exchanges = Ghost(
            self.exchanges@.push(
                Exchange { op: Op::Transfer(out), selected: selected@, reply: words@, result: r },
            ),
        );
        r
    }
}

/// An output-line double that records every level it is driven to.
#[derive(Debug)]
pub struct RecordingPin {
    high: bool,
    events: Vec<bool>,
}

impl RecordingPin {
    /// A line at `high`, with no events recorded.
    pub fn new(high: bool) -> (r: RecordingPin)
        ensures
            r.is_high() == high,
            r.history() == Seq::<bool>::empty(),
    {
        RecordingPin { high, events: Vec::new() }
    }

    /// The levels driven so far, oldest first (`true` for high).
    pub fn events(&self) -> (r: Vec<bool>)
        ensures
            r@ == self.history(),
    {
        self.events.clone()
    }

    /// Whether the line is driven high now.
    pub fn level_high(&self) -> (r: bool)
        ensures
            r == self.is_high(),
    {
        self.high
    }
}

impl OutputPin for RecordingPin {
    closed spec fn is_high(&self) -> bool {
        self.high
    }

    closed spec fn history(&self) -> Seq<bool> {
        self.events@
    }

    fn set_low(&mut self) {
        self.high = false;
        self.events.push(false);
    }

    fn set_high(&mut self) {
        self.high = true;
        self.events.push(true);
    }
}

/// A delay that returns at once and records what it was asked to wait, for
/// hosts without a timer.
#[derive(Debug)]
pub struct NoDelay {
    asked: Vec<u32>,
}

impl NoDelay {
    /// A delay with no waits recorded.
    pub fn new() -> (r: NoDelay)
        ensures
            r.waits() == Seq::<u32>::empty(),
    {
        NoDelay { asked: Vec::new() }
    }

    /// The waits asked for so far, in microseconds.
    pub fn asked(&self) -> (r: Vec<u32>)
        ensures
            r@ == self.waits(),
    {
        self.asked.clone()
    }
}

impl DelayUs for NoDelay {
    closed spec fn waits(&self) -> Seq<u32> {
        self.asked@
    }

    fn delay_us(&mut self, us: u32) {
        self.asked.push(us);
    }
}

} // verus!
