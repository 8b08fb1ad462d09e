//! Single-slot "latest value wins" cell between a producer task and a
//! consumer task. A set overwrites any value not yet taken; a wait takes the
//! value and clears the slot, and suspends while the slot is empty.
use vstd::prelude::*;

verus! {

/// The slot after `v` is set into slot `s`: the new value replaces whatever
/// was there.
pub open spec fn after_set<T>(s: Option<T>, v: T) -> Option<T> {
    Some(v)
}

/// The slot after each of `values` is set in turn into slot `s`.
pub open spec fn after_sets<T>(s: Option<T>, values: Seq<T>) -> Option<T>
    decreases values.len(),
{
    if values.len() == 0 {
        s
    } else {
        after_set(after_sets(s, values.drop_last()), values.last())
    }
}

/// A wait on a slot that holds `s` yields what it holds, and leaves it empty.
pub open spec fn taken<T>(s: Option<T>) -> Option<T> {
    s
}

/// However many values are set before a wait, the wait yields the last one;
/// earlier ones are gone. On a slot that was never set, the wait yields
/// nothing and the waiter stays suspended.
pub proof fn lemma_latest_value_wins<T>(s: Option<T>, values: Seq<T>)
    ensures
        values.len() > 0 ==> taken(after_sets(s, values)) == Some(values.last()),
        values.len() == 0 ==> taken(after_sets(s, values)) == s,
{
}

/// A signal carrying values of `T`.
#[derive(Debug)]
pub struct Signal<T> {
    slot: Option<T>,
    waiting: bool,
}

impl<T> View for Signal<T> {
    type V = Option<T>;

    /// The value waiting to be taken, if any.
    closed spec fn view(&self) -> Option<T> {
        self.slot
    }
}

impl<T> Signal<T> {
    /// A wait found the slot empty and its task waits to be woken.
    pub closed spec fn waiter_parked(&self) -> bool {
        self.waiting
    }

    /// A signal with an empty slot and no waiter.
    pub fn new() -> (r: Signal<T>)
        ensures
            r@ is None,
            !r.waiter_parked(),
    {
        Signal { slot: None, waiting: false }
    }

    /// Stores `value`, overwriting a value not yet taken, and reports whether
    /// a waiter must be woken.
    pub fn set(&mut self, value: T) -> (wake: bool)
        ensures
            final(self)@ == after_set(old(self)@, value),
            wake == old(self).waiter_parked(),
            !final(self).waiter_parked(),
    {
        self.slot = Some(value);
        let wake = self.waiting;
        self.waiting = false;
        wake
    }

    /// Takes the pending value and clears the slot; `None` when no value is
    /// pending, in which case the waiter suspends until the next set wakes it.
    pub fn try_take(&mut self) -> (r: Option<T>)
        ensures
            r == taken(old(self)@),
            final(self)@ is None,
            final(self).waiter_parked() == (old(self)@ is None),
    {
        let r = self.slot.take();
        self.waiting = r.is_none();
        r
    }

    /// Whether a value is pending.
    pub fn signaled(&self) -> (r: bool)
        ensures
            r == (self@ is Some),
    {
        self.slot.is_some()
    }

    /// Drops a pending value, if any.
    pub fn reset(&mut self)
        ensures
            final(self)@ is None,
            final(self).waiter_parked() == old(self).waiter_parked(),
    {
        self.slot = None;
    }
}

} // verus!
