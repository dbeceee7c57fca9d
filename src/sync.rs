//! The lock and condition variable of std that the broker is built on.
use std::sync::{Condvar, Mutex, MutexGuard};
use vstd::prelude::*;

use crate::pending::{accepts, total_filter, Pending};

verus! {

/// std's mutex, held opaque: the broker's buffer lives in it.
#[verifier::external_type_specification]
#[verifier::external_body]
#[verifier::reject_recursive_types(T)]
pub struct ExMutex<T: ?Sized>(Mutex<T>);

/// std's proof of holding a mutex, held opaque.
#[verifier::external_type_specification]
#[verifier::external_body]
#[verifier::reject_recursive_types(T)]
pub struct ExMutexGuard<'a, T: ?Sized + 'a>(MutexGuard<'a, T>);

/// std's condition variable, held opaque: consumers sleep on it.
#[verifier::external_type_specification]
#[verifier::external_body]
pub struct ExCondvar(Condvar);

/// Relies on Mutex::new: makes an unlocked mutex around `t`.
pub assume_specification<T>[ Mutex::<T>::new ](t: T) -> Mutex<T>;

/// Relies on Condvar::new: makes a condition variable with no waiter.
pub assume_specification[ Condvar::new ]() -> Condvar;

/// Relies on Condvar::notify_all: wakes every thread blocked on it.
pub assume_specification[ Condvar::notify_all ](c: &Condvar);

/// Relies on Mutex::lock: blocks until this thread holds the lock. A lock
/// that a panicking thread left poisoned is taken over as it is.
#[verifier::external_body]
pub(crate) fn lock<T>(m: &Mutex<T>) -> MutexGuard<'_, T> {
    m.lock().unwrap_or_else(std::sync::PoisonError::into_inner)
}

/// Relies on MutexGuard's Deref: the value that the held lock protects.
#[verifier::external_body]
pub(crate) fn held<'a, 'b, T>(g: &'a MutexGuard<'b, T>) -> &'a T {
    &**g
}

/// Relies on MutexGuard's DerefMut: the value that the held lock protects.
#[verifier::external_body]
pub(crate) fn held_mut<'a, 'b, T>(g: &'a mut MutexGuard<'b, T>) -> &'a mut T {
    &mut **g
}

/// Relies on Condvar::wait_while: it releases the lock while blocked, takes
/// it again on every wake, and returns only once the condition has answered
/// `false`. The condition is `Pending::keep_waiting`, which answers `false`
/// exactly when it has moved an accepted message into the slot. Where a
/// filter panicked while holding the lock, std hands the lock back poisoned
/// before the condition is met, and this panics as well.
#[verifier::external_body]
pub(crate) fn wait_claim<T, F: Fn(&T) -> bool>(
    c: &Condvar,
    g: MutexGuard<'_, Pending<T>>,
    filter: &F,
) -> (r: T)
    requires
        total_filter(filter),
    ensures
        accepts(filter, r),
{
    let mut slot = None;
    let woken = c.wait_while(g, |p| p.keep_waiting(filter, &mut slot));
    drop(woken);
    slot.unwrap()
}

} // verus!
