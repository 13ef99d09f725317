use std::sync::{Arc, Condvar, Mutex, MutexGuard, PoisonError};
use vstd::prelude::*;

use crate::state::Inner;

verus! {

#[verifier::external_type_specification]
#[verifier::external_body]
#[verifier::reject_recursive_types(T)]
pub struct ExMutex<T: ?Sized>(Mutex<T>);

#[verifier::external_type_specification]
#[verifier::external_body]
#[verifier::reject_recursive_types(T)]
pub struct ExMutexGuard<'a, T: ?Sized + 'a>(MutexGuard<'a, T>);

#[verifier::external_type_specification]
#[verifier::external_body]
pub struct ExCondvar(Condvar);

/// Relies on Mutex::new: wraps a value in a fresh, unlocked mutex.
pub assume_specification<T>[ Mutex::<T>::new ](t: T) -> Mutex<T>;

/// Relies on Condvar::new: a condition variable with no waiters.
pub assume_specification[ Condvar::new ]() -> Condvar;

/// What every handle of one channel shares: the guarded state and the signal that
/// wakes a waiting consumer.
#[verifier::reject_recursive_types(T)]
pub struct Shared<T> {
    inner: Mutex<Inner<T>>,
    available: Condvar,
}

/// The lock of one `Shared` held, together with the `Shared` it belongs to. Only the
/// functions of this module build one, so its guard is always of its own `Shared`'s
/// mutex, and a wait on that `Shared`'s condition variable pairs it with that mutex alone.
#[verifier::reject_recursive_types(T)]
pub(crate) struct Locked<'a, T> {
    shared: &'a Shared<T>,
    guard: MutexGuard<'a, Inner<T>>,
}

impl<T> Shared<T> {
    /// A fresh shared state: nothing pending, one live producer.
    pub(crate) fn new() -> Self {
        Shared { inner: Mutex::new(Inner::new()), available: Condvar::new() }
    }

    /// Counts one producer fewer; the release that closes the channel wakes the consumer.
    pub(crate) fn release(&self)
        opens_invariants none
        no_unwind
    {
        let closed_now = {
            let mut l = lock_on_release(self);
            state(&mut l).release_producer()
        };
        if closed_now {
            notify(self);
        }
    }
}

/// Relies on Mutex::lock: blocks until the lock is held. A lock poisoned by a panic
/// still guards a whole state (none of the state's operations leaves it half changed),
/// so its guard is taken as it is.
#[verifier::external_body]
pub(crate) fn lock<'a, T>(s: &'a Shared<T>) -> Locked<'a, T> {
    Locked { shared: s, guard: s.inner.lock().unwrap_or_else(PoisonError::into_inner) }
}

/// Relies on Mutex::lock, as `lock` does, on the release path of a producer handle,
/// which must not unwind. Mutex::lock panics only when the calling thread already holds
/// the lock. Its one caller is `Shared::release`, reached only from a producer handle's
/// drop; no thread holds the lock then, since a lock is held only across the state's own
/// operations, which drop no handle.
#[verifier::external_body]
fn lock_on_release<'a, T>(s: &'a Shared<T>) -> Locked<'a, T>
    opens_invariants none
    no_unwind
{
    Locked { shared: s, guard: s.inner.lock().unwrap_or_else(PoisonError::into_inner) }
}

/// Relies on MutexGuard's DerefMut: the state that the held lock protects.
#[verifier::external_body]
pub(crate) fn state<'a, 'b, T>(l: &'a mut Locked<'b, T>) -> &'a mut Inner<T>
    opens_invariants none
    no_unwind
{
    &mut *l.guard
}

/// Relies on Condvar::wait_while: releases the lock and blocks until woken, takes the
/// lock again, and repeats while the consumer must wait; returns holding the lock. The
/// predicate it is handed is the state's own `must_wait`; the condition variable is the
/// one of the `Shared` whose mutex is held; poisoning is handled as in `lock`.
#[verifier::external_body]
pub(crate) fn wait_for_work<'a, T>(l: Locked<'a, T>) -> Locked<'a, T> {
    let s = l.shared;
    Locked {
        shared: s,
        guard: s.available.wait_while(l.guard, |i| i.must_wait()).unwrap_or_else(
            PoisonError::into_inner,
        ),
    }
}

/// Relies on Condvar::notify_one: wakes at most one thread blocked on the condition
/// variable of `s`; it does not panic.
#[verifier::external_body]
pub(crate) fn notify<T>(s: &Shared<T>)
    opens_invariants none
    no_unwind
{
    s.available.notify_one()
}

/// Relies on Arc::clone: a new owning reference to the same allocation.
#[verifier::external_body]
pub(crate) fn share<T>(a: &Arc<T>) -> (r: Arc<T>)
    ensures
        r == *a,
{
    Arc::clone(a)
}

} // verus!
