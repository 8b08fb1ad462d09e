//! Decisions of the demo control loops (a blinking LED, an LED that follows a
//! button, a periodic message producer), as state machines that a runtime
//! steps at each resumption: it performs the returned action (drive a line,
//! sleep, wait) and comes back with the next event.
use vstd::prelude::*;
use crate::channel::{receive_step, send_step, Channel};
use crate::executor::Suspend;
use crate::signal::{after_set, taken, Signal};

verus! {

/// A blinking LED: it alternates low and high, holding each level for the
/// same interval, starting low.
#[derive(Debug)]
pub struct Blinker {
    next_high: bool,
    interval_ms: u64,
}

impl Blinker {
    /// The level driven at the next step (`true` for high).
    pub closed spec fn next_level(&self) -> bool {
        self.next_high
    }

    /// How long each level is held, in milliseconds.
    pub closed spec fn interval(&self) -> u64 {
        self.interval_ms
    }

    /// A blinker that starts low.
    pub fn new(interval_ms: u64) -> (r: Blinker)
        ensures
            !r.next_level(),
            r.interval() == interval_ms,
    {
        Blinker { next_high: false, interval_ms }
    }

    /// The level to drive now (`true` for high) and how long to sleep after.
    pub fn step(&mut self) -> (r: (bool, u64))
        ensures
            r.0 == old(self).next_level(),
            r.1 == old(self).interval(),
            final(self).next_level() == !old(self).next_level(),
            final(self).interval() == old(self).interval(),
    {
        let level = self.next_high;
        self.next_high = !level;
        (level, self.interval_ms)
    }
}


/// An LED that follows a button: wait for the button to go high, light the
/// LED, wait for it to go low, darken the LED, and so on.
#[derive(Debug)]
pub struct ButtonFollower {
    awaiting_high: bool,
}

impl ButtonFollower {
    /// The button level the task waits for next (`true` for high).
    pub closed spec fn awaited(&self) -> bool {
        self.awaiting_high
    }

    /// A follower that first waits for the button to go high.
    pub fn new() -> (r: ButtonFollower)
        ensures
            r.awaited(),
    {
        ButtonFollower { awaiting_high: true }
    }

    /// The button level to wait for next.
    pub fn awaited_level(&self) -> (r: bool)
        ensures
            r == self.awaited(),
    {
        self.awaiting_high
    }

    /// The awaited level was reached: returns the level to drive the LED to,
    /// which is that level, and turns to wait for the opposite one.
    pub fn on_level_reached(&mut self) -> (r: bool)
        ensures
            r == old(self).awaited(),
            final(self).awaited() == !old(self).awaited(),
    {
        let level = self.awaiting_high;
        self.awaiting_high = !level;
        level
    }
}

/// A producer that hands out a fixed list of messages in a cycle, sleeping
/// for an interval after each one goes out.
#[derive(Debug)]
pub struct MessageCycle<T> {
    messages: Vec<T>,
    next: usize,
    interval_ms: u64,
}

impl<T: Copy> MessageCycle<T> {
    /// The messages, in the order they go out.
    pub closed spec fn messages(&self) -> Seq<T> {
        self.messages@
    }

    /// Index of the message that goes out next.
    pub closed spec fn position(&self) -> nat {
        self.next as nat
    }

    /// The sleep after each message, in milliseconds.
    pub closed spec fn interval(&self) -> u64 {
        self.interval_ms
    }

    /// The position names a message.
    pub closed spec fn wf(&self) -> bool {
        self.next < self.messages@.len()
    }

    /// The message that goes out next.
    pub open spec fn pending(&self) -> T {
        self.messages()[self.position() as int]
    }

    /// The position after the one at `p` in a cycle of `n` messages.
    pub open spec fn advanced(p: nat, n: nat) -> nat {
        if p + 1 < n {
            p + 1
        } else {
            0
        }
    }

    /// A cycle over `messages`, starting at the first one.
    pub fn new(messages: Vec<T>, interval_ms: u64) -> (r: MessageCycle<T>)
        requires
            messages@.len() > 0,
        ensures
            r.wf(),
            r.messages() == messages@,
            r.position() == 0,
            r.interval() == interval_ms,
    {
        MessageCycle { messages, next: 0, interval_ms }
    }

    fn advance(&mut self)
        requires
            old(self).wf(),
        ensures
            final(self).wf(),
            final(self).messages() == old(self).messages(),
            final(self).interval() == old(self).interval(),
            final(self).position() == Self::advanced(old(self).position(), old(self).messages().len()),
    {
        if self.next < self.messages.len() - 1 {
            self.next = self.next + 1;
        } else {
            self.next = 0;
        }
    }

    /// Tries to send the pending message on `ch`. On success returns the
    /// message, the sleep that follows and whether the receiver must be
    /// woken, and moves to the next message; on a full channel returns
    /// `None`, keeps the message pending, and the task waits.
    pub fn poll_channel(&mut self, ch: &mut Channel<T>) -> (r: Option<(T, u64, bool)>)
        requires
            old(self).wf(),
            old(ch).wf(),
        ensures
            final(self).wf(),
            final(ch).wf(),
            final(ch).cap() == old(ch).cap(),
            final(self).messages() == old(self).messages(),
            final(self).interval() == old(self).interval(),
            final(ch)@ == send_step(old(ch)@, old(ch).cap(), old(self).pending()),
            r is Some <==> old(ch)@.len() < old(ch).cap(),
            r matches Some(p) ==> p == (old(self).pending(), old(self).interval(), old(ch).receiver_parked())
                && !final(ch).receiver_parked()
                && final(self).position() == Self::advanced(
                old(self).position(),
                old(self).messages().len(),
            ),
            r is None ==> final(self).position() == old(self).position() && final(ch).sender_parked(),
    {
        let msg = self.messages[self.next];
        match ch.try_send(msg) {
            Ok(wake) => {
                self.advance();
                Some((msg, self.interval_ms, wake))
            },
            Err(_) => None,
        }
    }

    /// Sets the pending message on `sig`, overwriting a value not yet taken,
    /// moves to the next message, and returns the message, the sleep that
    /// follows and whether the waiter must be woken.
    pub fn poll_signal(&mut self, sig: &mut Signal<T>) -> (r: (T, u64, bool))
        requires
            old(self).wf(),
        ensures
            final(self).wf(),
            final(self).messages() == old(self).messages(),
            final(self).interval() == old(self).interval(),
            final(sig)@ == after_set(old(sig)@, old(self).pending()),
            !final(sig).waiter_parked(),
            r == (old(self).pending(), old(self).interval(), old(sig).waiter_parked()),
            final(self).position() == Self::advanced(old(self).position(), old(self).messages().len()),
    {
        let msg = self.messages[self.next];
        let wake = sig.set(msg);
        self.advance();
        (msg, self.interval_ms, wake)
    }
}

/// The clock reading `interval` milliseconds after `now`, held at the
/// largest reading.
pub open spec fn deadline(now: u64, interval: u64) -> u64 {
    if now + interval > u64::MAX {
        u64::MAX
    } else {
        (now + interval) as u64
    }
}

fn deadline_after(now: u64, interval: u64) -> (r: u64)
    ensures
        r == deadline(now, interval),
{
    if now > u64::MAX - interval {
        u64::MAX
    } else {
        now + interval
    }
}

/// A consumer that takes one message at a time and then sleeps for an
/// interval; with nothing to take it waits to be woken.
#[derive(Debug)]
pub struct MessageSink {
    interval_ms: u64,
}

impl MessageSink {
    /// The sleep after each message, in milliseconds.
    pub closed spec fn interval(&self) -> u64 {
        self.interval_ms
    }

    pub fn new(interval_ms: u64) -> (r: MessageSink)
        ensures
            r.interval() == interval_ms,
    {
        MessageSink { interval_ms }
    }

    /// One resumption at clock reading `now` on a channel: the message taken,
    /// if any, how the task suspends, and whether the sender must be woken.
    pub fn poll_channel<T>(&self, ch: &mut Channel<T>, now: u64) -> (r: (Option<T>, Suspend, bool))
        requires
            old(ch).wf(),
        ensures
            final(ch).wf(),
            final(ch).cap() == old(ch).cap(),
            final(ch)@ == receive_step(old(ch)@),
            old(ch)@.len() > 0 ==> r.0 == Some(old(ch)@[0]) && r.1 == Suspend::SleepUntil(
                deadline(now, self.interval()),
            ) && r.2 == old(ch).sender_parked(),
            old(ch)@.len() == 0 ==> r.0 is None && r.1 == Suspend::Wait && !r.2
                && final(ch).receiver_parked(),
    {
        match ch.try_receive() {
            Some((v, wake)) => (Some(v), Suspend::SleepUntil(deadline_after(now, self.interval_ms)), wake),
            None => (None, Suspend::Wait, false),
        }
    }

    /// One resumption at clock reading `now` on a signal: the value taken, if
    /// any, and how the task suspends.
    pub fn poll_signal<T>(&self, sig: &mut Signal<T>, now: u64) -> (r: (Option<T>, Suspend))
        ensures
            final(sig)@ is None,
            r.0 == taken(old(sig)@),
            old(sig)@ is Some ==> r.1 == Suspend::SleepUntil(deadline(now, self.interval())),
            old(sig)@ is None ==> r.1 == Suspend::Wait && final(sig).waiter_parked(),
    {
        match sig.try_take() {
            Some(v) => (Some(v), Suspend::SleepUntil(deadline_after(now, self.interval_ms))),
            None => (None, Suspend::Wait),
        }
    }
}

} // verus!
