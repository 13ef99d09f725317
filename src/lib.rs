pub mod laws;
pub mod state;
mod sync;

use std::sync::Arc;
use vstd::prelude::*;

pub use crate::sync::Shared;
use crate::sync::{lock, notify, share, state, wait_for_work};

verus! {

/// A producer handle: cloneable, sends values into the channel.
#[verifier::reject_recursive_types(T)]
pub struct Sender<T> {
    message: Arc<Shared<T>>,
}

/// The consumer handle: receives values in the order they were enqueued.
#[verifier::reject_recursive_types(T)]
pub struct Receiver<T> {
    message: Arc<Shared<T>>,
}

impl<T> Sender<T> {
    /// The value of the shared state this handle holds. Its lock and signal are opaque,
    /// so two channels' states may be equal values: this tells no channel from another.
    pub closed spec fn shared(&self) -> Shared<T> {
        *self.message
    }

    /// Appends `t` at the back of the channel's queue and wakes the consumer.
    pub fn send(&mut self, t: T)
        ensures
            final(self).shared() == old(self).shared(),
    {
        {
            let mut l = lock(&self.message);
            state(&mut l).enqueue(t);
        }
        notify(&self.message);
    }
}

impl<T> Clone for Sender<T> {
    fn clone(&self) -> (r: Self)
        ensures
            r.shared() == self.shared(),
    {
        {
            let mut l = lock(&self.message);
            state(&mut l).register_producer();
        }
        Sender { message: share(&self.message) }
    }
}

impl<T> Drop for Sender<T> {
    /// Releases this producer; the last release wakes the consumer to see the closure.
    fn drop(&mut self)
        opens_invariants none
        no_unwind
    {
        self.message.release()
    }
}

impl<T> Receiver<T> {
    /// The value of the shared state this handle holds. Its lock and signal are opaque,
    /// so two channels' states may be equal values: this tells no channel from another.
    pub closed spec fn shared(&self) -> Shared<T> {
        *self.message
    }

    /// Takes the next value, blocking while the queue is empty and a producer is live;
    /// `None` once the queue is empty and every producer is gone.
    pub fn receive(&mut self) -> (r: Option<T>)
        ensures
            final(self).shared() == old(self).shared(),
    {
        let mut l = wait_for_work(lock(&self.message));
        state(&mut l).take_front()
    }
}

/// Creates a channel: one producer handle and the consumer handle, over an empty
/// queue with one live producer.
pub fn channel<T>() -> (r: (Sender<T>, Receiver<T>))
    ensures
        r.0.shared() == r.1.shared(),
{
    let shared = Arc::new(Shared::new());
    (Sender { message: share(&shared) }, Receiver { message: share(&shared) })
}

} // verus!
