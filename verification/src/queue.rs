//! The model of a bounded event queue for unit-valued events: a non-blocking
//! `try_send` that drops the new event when the queue is full, and a
//! non-blocking `try_recv`. A queue of capacity one realizes the
//! latest-only buffering of tick events.

use vstd::prelude::*;

verus! {

/// What one non-blocking send leaves in a queue of `len` events and
/// capacity `cap`: the event is enqueued if there is room, else dropped.
pub open spec fn len_after_send(len: nat, cap: nat) -> nat {
    if len < cap {
        len + 1
    } else {
        len
    }
}

/// The queue length after `n` consecutive non-blocking sends with no
/// receive in between (a stalled consumer).
pub open spec fn len_after_sends(len: nat, cap: nat, n: nat) -> nat
    decreases n,
{
    if n == 0 {
        len
    } else {
        len_after_send(len_after_sends(len, cap, (n - 1) as nat), cap)
    }
}

/// A bounded queue of unit-valued events. Since the events carry no
/// payload, the queue is its occupancy count.
pub struct UnitQueue {
    cap: usize,
    len: usize,
}

impl UnitQueue {
    /// The capacity the queue was made with.
    pub closed spec fn spec_cap(self) -> nat {
        self.cap as nat
    }

    /// How many events are buffered.
    pub closed spec fn spec_len(self) -> nat {
        self.len as nat
    }

    pub open spec fn wf(self) -> bool {
        self.spec_len() <= self.spec_cap() && self.spec_cap() >= 1
    }

    /// An empty queue of the given capacity.
    pub fn new(cap: usize) -> (q: UnitQueue)
        requires
            cap >= 1,
        ensures
            q.wf(),
            q.spec_cap() == cap,
            q.spec_len() == 0,
    {
        UnitQueue { cap, len: 0 }
    }

    /// A non-blocking enqueue: succeeds exactly when there is room, and
    /// drops the new event silently when the queue is full.
    pub fn try_send(&mut self) -> (accepted: bool)
        requires
            old(self).wf(),
        ensures
            final(self).wf(),
            final(self).spec_cap() == old(self).spec_cap(),
            final(self).spec_len() == len_after_send(old(self).spec_len(), old(self).spec_cap()),
            accepted == (old(self).spec_len() < old(self).spec_cap()),
    {
        if self.len < self.cap {
            self.len = self.len + 1;
            true
        } else {
            false
        }
    }

    /// A non-blocking dequeue: delivers one event exactly when one is
    /// buffered.
    pub fn try_recv(&mut self) -> (delivered: bool)
        requires
            old(self).wf(),
        ensures
            final(self).wf(),
            final(self).spec_cap() == old(self).spec_cap(),
            delivered == (old(self).spec_len() > 0),
            delivered ==> final(self).spec_len() == old(self).spec_len() - 1,
            !delivered ==> final(self).spec_len() == old(self).spec_len(),
    {
        if self.len > 0 {
            self.len = self.len - 1;
            true
        } else {
            false
        }
    }

    /// How many events are buffered, as a runtime value.
    pub fn buffered(&self) -> (n: usize)
        ensures
            n == self.spec_len(),
    {
        self.len
    }
}

/// Law: on a queue of capacity one, any number of sends while the consumer
/// is stalled leaves at most one buffered event — exactly one as soon as a
/// single send happened — so on resume exactly one event is delivered, not
/// a burst of missed ones.
pub proof fn lemma_latest_only(n: nat)
    ensures
        len_after_sends(0, 1, n) <= 1,
        n >= 1 ==> len_after_sends(0, 1, n) == 1,
    decreases n,
{
    if n > 0 {
        lemma_latest_only((n - 1) as nat);
    }
}

/// Law: a bounded queue never grows past its capacity, however many sends
/// arrive.
pub proof fn lemma_sends_bounded(len: nat, cap: nat, n: nat)
    requires
        len <= cap,
    ensures
        len_after_sends(len, cap, n) <= cap,
    decreases n,
{
    if n > 0 {
        lemma_sends_bounded(len, cap, (n - 1) as nat);
    }
}

} // verus!
