use std::collections::VecDeque;
use vstd::prelude::*;

verus! {

/// Whether a consumer facing the queue `q` with `live` producers must wait: nothing is
/// pending, yet a producer could still send.
pub open spec fn waits<T>(q: Seq<T>, live: nat) -> bool {
    q.len() == 0 && live > 0
}

/// The value a take yields from the queue `q`: its front, if any.
pub open spec fn front<T>(q: Seq<T>) -> Option<T> {
    if q.len() > 0 {
        Some(q[0])
    } else {
        None
    }
}

/// The queue left behind by a take on `q`.
pub open spec fn take_rest<T>(q: Seq<T>) -> Seq<T> {
    if q.len() > 0 {
        q.drop_first()
    } else {
        q
    }
}

/// The producer count after one more producer registers. A closed channel stays closed:
/// a count of zero stays put, as does one at `usize::MAX`.
pub open spec fn registered(live: nat) -> nat {
    if 0 < live < usize::MAX {
        live + 1
    } else {
        live
    }
}

/// The producer count after one producer is released (it never drops below zero).
pub open spec fn released(live: nat) -> nat {
    if live > 0 {
        (live - 1) as nat
    } else {
        0
    }
}

/// Whether releasing one producer out of `live` closes the channel.
pub open spec fn closes(live: nat) -> bool {
    live == 1
}

/// The pending values and the live-producer count guarded by the channel's lock.
pub struct Inner<T> {
    queue: VecDeque<T>,
    senders: usize,
}

impl<T> Inner<T> {
    /// The values enqueued and not yet taken, front first.
    pub closed spec fn pending(&self) -> Seq<T> {
        self.queue@
    }

    /// The number of live producer handles.
    pub closed spec fn live(&self) -> nat {
        self.senders as nat
    }

    /// A fresh state: nothing pending, one live producer.
    pub fn new() -> (s: Self)
        ensures
            s.pending() == Seq::<T>::empty(),
            s.live() == 1,
    {
        Inner { queue: VecDeque::new(), senders: 1 }
    }

    /// Appends `v` at the back of the queue.
    pub fn enqueue(&mut self, v: T)
        ensures
            final(self).pending() == old(self).pending().push(v),
            final(self).live() == old(self).live(),
    {
        self.queue.push_back(v);
    }

    /// Counts one more live producer. The count never reaches `usize::MAX` in practice:
    /// each producer holds a reference to the shared state, and the number of such
    /// references is bounded well below it; at that bound the count stays put.
    pub fn register_producer(&mut self)
        ensures
            final(self).pending() == old(self).pending(),
            final(self).live() == registered(old(self).live()),
    {
        if 0 < self.senders && self.senders < usize::MAX {
            self.senders = self.senders + 1;
        }
    }

    /// Counts one producer fewer; returns whether this release closed the channel.
    pub fn release_producer(&mut self) -> (closed_now: bool)
        ensures
            final(self).pending() == old(self).pending(),
            final(self).live() == released(old(self).live()),
            closed_now == closes(old(self).live()),
        opens_invariants none
        no_unwind
    {
        if self.senders > 0 {
            self.senders = self.senders - 1;
            self.senders == 0
        } else {
            false
        }
    }

    /// Whether the consumer must block: the queue is empty and a producer is live.
    pub fn must_wait(&self) -> (r: bool)
        ensures
            r == waits(self.pending(), self.live()),
    {
        self.queue.len() == 0 && self.senders > 0
    }

    /// Removes and returns the front value, or `None` when nothing is pending.
    pub fn take_front(&mut self) -> (r: Option<T>)
        ensures
            r == front(old(self).pending()),
            final(self).pending() == take_rest(old(self).pending()),
            final(self).live() == old(self).live(),
    {
        self.queue.pop_front()
    }
}

} // verus!
