//! The broker: a buffer of messages shared between one producer and any
//! number of consumers, each blocking until a message its filter accepts is
//! there and claiming it for itself alone.
use std::sync::{Arc, Condvar, Mutex};
use vstd::prelude::*;

use crate::pending::{accepts, total_filter, Pending};
use crate::sync::{held, held_mut, lock, wait_claim};

verus! {

/// Shared message buffer. Clones share one buffer; every access goes through
/// its lock, and `push` wakes the consumers blocked in `wait`.
#[verifier::reject_recursive_types(T)]
pub struct Messages<T> {
    shared: Arc<(Mutex<Pending<T>>, Condvar)>,
}

impl<T> Clone for Messages<T> {
    fn clone(&self) -> Self {
        Messages { shared: Arc::clone(&self.shared) }
    }
}

impl<T> Default for Messages<T> {
    fn default() -> Self {
        Messages::new()
    }
}

impl<T> Messages<T> {
    /// A broker with an empty buffer, shared with no one yet.
    pub fn new() -> Self {
        Messages { shared: Arc::new((Mutex::new(Pending::new()), Condvar::new())) }
    }

    /// Number of unclaimed messages at the moment the lock was held.
    pub fn len(&self) -> usize {
        let g = lock(&self.shared.0);
        held(&g).len()
    }

    /// Whether no message was unclaimed at the moment the lock was held.
    pub fn is_empty(&self) -> bool {
        let g = lock(&self.shared.0);
        held(&g).is_empty()
    }

    /// Appends `message` and wakes every consumer blocked in `wait`.
    pub fn push(&self, message: T) {
        let mut g = lock(&self.shared.0);
        held_mut(&mut g).push(message);
        self.shared.1.notify_all();
    }

    /// Blocks until the buffer holds a message that `filter` accepts, then
    /// removes one such message and returns it. No other call of `wait`
    /// returns the same message.
    pub fn wait<F: Fn(&T) -> bool>(&self, filter: F) -> (r: T)
        requires
            total_filter(&filter),
        ensures
            accepts(&filter, r),
    {
        let g = lock(&self.shared.0);
        wait_claim(&self.shared.1, g, &filter)
    }
}

} // verus!
