//! Bounded FIFO mailbox between a producer task and a consumer task. A send on
//! a full channel and a receive on an empty one do not complete: the caller
//! suspends and retries once the other side has made progress.
use vstd::prelude::*;

verus! {

/// The channel contents after a send of `v` is attempted on contents `q`
/// with room for `cap` values: appended when there is room, else unchanged.
pub open spec fn send_step<T>(q: Seq<T>, cap: nat, v: T) -> Seq<T> {
    if q.len() < cap {
        q.push(v)
    } else {
        q
    }
}

/// The channel contents after a receive is attempted on contents `q`: the
/// oldest value leaves, if there is one.
pub open spec fn receive_step<T>(q: Seq<T>) -> Seq<T> {
    if q.len() > 0 {
        q.drop_first()
    } else {
        q
    }
}

/// One attempted operation on a channel.
pub enum ChannelOp<T> {
    Send(T),
    Receive,
}

/// What a run of attempted operations leaves: the contents, the values whose
/// send went through, and the values received, each oldest first.
pub struct ChannelTrace<T> {
    pub contents: Seq<T>,
    pub accepted: Seq<T>,
    pub received: Seq<T>,
}

/// Replays `ops` on an empty channel of capacity `cap`.
pub open spec fn run<T>(cap: nat, ops: Seq<ChannelOp<T>>) -> ChannelTrace<T>
    decreases ops.len(),
{
    if ops.len() == 0 {
        ChannelTrace { contents: Seq::empty(), accepted: Seq::empty(), received: Seq::empty() }
    } else {
        let t = run(cap, ops.drop_last());
        match ops.last() {
            ChannelOp::Send(v) => if t.contents.len() < cap {
                ChannelTrace {
                    contents: send_step(t.contents, cap, v),
                    accepted: t.accepted.push(v),
                    received: t.received,
                }
            } else {
                t
            },
            ChannelOp::Receive => if t.contents.len() > 0 {
                ChannelTrace {
                    contents: receive_step(t.contents),
                    accepted: t.accepted,
                    received: t.received.push(t.contents[0]),
                }
            } else {
                t
            },
        }
    }
}

/// Over any run of sends and receives, values come out in the order they went
/// in: what was received, followed by what is still buffered, is exactly what
/// was accepted. The buffer never holds more than the capacity.
pub proof fn lemma_fifo<T>(cap: nat, ops: Seq<ChannelOp<T>>)
    ensures
        run(cap, ops).received + run(cap, ops).contents == run(cap, ops).accepted,
        run(cap, ops).contents.len() <= cap,
    decreases ops.len(),
{
    if ops.len() > 0 {
        let t = run(cap, ops.drop_last());
        lemma_fifo(cap, ops.drop_last());
        match ops.last() {
            ChannelOp::Send(v) => {
                if t.contents.len() < cap {
                    assert(t.received + t.contents.push(v) =~= (t.received + t.contents).push(v));
                }
            },
            ChannelOp::Receive => {
                if t.contents.len() > 0 {
                    assert(t.received.push(t.contents[0]) + t.contents.drop_first() =~= t.received
                        + t.contents);
                }
            },
        }
    }
}

/// One step of `run` is the step the channel's own operations take: a send
/// changes the contents as `send_step` (the value it accepts, if any, joins
/// `accepted`), a receive as `receive_step` (the value it yields joins
/// `received`). So a channel that started empty and went through `try_send`
/// and `try_receive` in the order of `ops` holds `run(cap, ops).contents`.
pub proof fn lemma_run_step<T>(cap: nat, ops: Seq<ChannelOp<T>>, op: ChannelOp<T>)
    ensures
        ({
            let before = run(cap, ops);
            let after = run(cap, ops.push(op));
            match op {
                ChannelOp::Send(v) => {
                    &&& after.contents == send_step(before.contents, cap, v)
                    &&& after.received == before.received
                    &&& after.accepted == if before.contents.len() < cap {
                        before.accepted.push(v)
                    } else {
                        before.accepted
                    }
                },
                ChannelOp::Receive => {
                    &&& after.contents == receive_step(before.contents)
                    &&& after.accepted == before.accepted
                    &&& after.received == if before.contents.len() > 0 {
                        before.received.push(before.contents[0])
                    } else {
                        before.received
                    }
                },
            }
        }),
{
    assert(ops.push(op).drop_last() =~= ops);
}

/// A bounded FIFO channel.
#[derive(Debug)]
pub struct Channel<T> {
    items: Vec<T>,
    capacity: usize,
    sender_waiting: bool,
    receiver_waiting: bool,
}

impl<T> View for Channel<T> {
    type V = Seq<T>;

    /// The buffered values, oldest first.
    closed spec fn view(&self) -> Seq<T> {
        self.items@
    }
}

impl<T> Channel<T> {
    /// How many values the channel buffers at most.
    pub closed spec fn cap(&self) -> nat {
        self.capacity as nat
    }

    /// The buffer never holds more than the capacity.
    pub open spec fn wf(&self) -> bool {
        self@.len() <= self.cap()
    }

    /// A send found the channel full and its task waits to be woken.
    pub closed spec fn sender_parked(&self) -> bool {
        self.sender_waiting
    }

    /// A receive found the channel empty and its task waits to be woken.
    pub closed spec fn receiver_parked(&self) -> bool {
        self.receiver_waiting
    }

    /// An empty channel that buffers up to `capacity` values.
    pub fn new(capacity: usize) -> (r: Channel<T>)
        ensures
            r.wf(),
            r@ == Seq::<T>::empty(),
            r.cap() == capacity,
            !r.sender_parked(),
            !r.receiver_parked(),
    {
        Channel { items: Vec::new(), capacity, sender_waiting: false, receiver_waiting: false }
    }

    /// Appends `value` if there is room, and reports whether a receiver
    /// waits to be woken (`Ok(true)`). When the channel is full it hands the
    /// value back; the sender then suspends until a receive wakes it.
    pub fn try_send(&mut self, value: T) -> (r: Result<bool, T>)
        requires
            old(self).wf(),
        ensures
            final(self).wf(),
            final(self).cap() == old(self).cap(),
            final(self)@ == send_step(old(self)@, old(self).cap(), value),
            r is Ok <==> old(self)@.len() < old(self).cap(),
            r matches Ok(wake) ==> wake == old(self).receiver_parked() && !final(self).receiver_parked()
                && final(self).sender_parked() == old(self).sender_parked(),
            r matches Err(v) ==> v == value && final(self).sender_parked()
                && final(self).receiver_parked() == old(self).receiver_parked(),
    {
        if self.items.len() < self.capacity {
            self.items.push(value);
            let wake = self.receiver_waiting;
            self.receiver_waiting = false;
            Ok(wake)
        } else {
            self.sender_waiting = true;
            Err(value)
        }
    }

    /// Takes the oldest value, and reports whether a sender waits to be
    /// woken. `None` when the channel is empty; the receiver then suspends
    /// until a send wakes it.
    pub fn try_receive(&mut self) -> (r: Option<(T, bool)>)
        requires
            old(self).wf(),
        ensures
            final(self).wf(),
            final(self).cap() == old(self).cap(),
            final(self)@ == receive_step(old(self)@),
            r is Some <==> old(self)@.len() > 0,
            r matches Some(p) ==> p.0 == old(self)@[0] && p.1 == old(self).sender_parked()
                && !final(self).sender_parked() && final(self).receiver_parked()
                == old(self).receiver_parked(),
            r is None ==> final(self).receiver_parked() && final(self).sender_parked()
                == old(self).sender_parked(),
    {
        if self.items.len() > 0 {
            let v = self.items.remove(0);
            let wake = self.sender_waiting;
            self.sender_waiting = false;
            Some((v, wake))
        } else {
            self.receiver_waiting = true;
            None
        }
    }

    /// Number of buffered values.
    pub fn len(&self) -> (r: usize)
        ensures
            r == self@.len(),
    {
        self.items.len()
    }

    /// Whether no value is buffered.
    pub fn is_empty(&self) -> (r: bool)
        ensures
            r == (self@.len() == 0),
    {
        self.items.len() == 0
    }

    /// Whether a send would have to wait.
    pub fn is_full(&self) -> (r: bool)
        requires
            self.wf(),
        ensures
            r == (self@.len() == self.cap()),
    {
        self.items.len() == self.capacity
    }

    /// How many values the channel buffers at most.
    pub fn capacity(&self) -> (r: usize)
        ensures
            r == self.cap(),
    {
        self.capacity
    }
}

} // verus!
