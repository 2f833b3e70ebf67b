//! The guard: one acquisition, from the moment it succeeds to its release.

use crate::raw::RawMutex;
use std::marker::PhantomData;
use vstd::prelude::*;

verus! {

/// Access to the value behind a lock that has been acquired.
///
/// The guard borrows the lock exclusively and never owns it. While it holds
/// the lock no other acquisition can succeed. `release` consumes the guard,
/// so an acquisition is released at most once. A guard that is dropped
/// without `release` leaves its lock held.
///
/// The fields are public so that a contract can say what the lock holds
/// once the guard is gone. They are not a way around the guard: use
/// `deref`, `deref_mut` and `release`.
pub struct MutexGuard<'a, T, M: RawMutex<T>> {
    /// The lock that this guard was made for.
    pub lock: &'a mut M,
    /// Ties the guard to the type of the protected value.
    pub marker: PhantomData<T>,
}

impl<'a, T, M: RawMutex<T>> MutexGuard<'a, T, M> {
    /// The guard is valid: its lock is held.
    pub open spec fn holds_lock(&self) -> bool {
        self.lock@.locked
    }

    /// Makes the guard of an acquisition that has just succeeded. The lock
    /// must already be marked as held; nothing is checked or changed here.
    pub fn new(mutex: &'a mut M) -> (g: Self)
        requires
            old(mutex)@.locked,
        ensures
            g.holds_lock(),
            *g.lock == *old(mutex),
            *final(g.lock) == *final(mutex),
    {
        MutexGuard { lock: mutex, marker: PhantomData }
    }

    /// Reads the protected value.
    pub fn deref(&self) -> (r: &T)
        requires
            self.holds_lock(),
        ensures
            *r == old(self.lock)@.data,
    {
        self.lock.get_ref()
    }

    /// Gives write access to the protected value. The guard keeps holding
    /// the same lock, which then protects whatever is written.
    pub fn deref_mut(&mut self) -> (r: &mut T)
        requires
            old(self).holds_lock(),
        ensures
            *r == old(self).lock@.data,
            final(self).lock@ == old(self).lock@.write_step(*final(r)),
            *final(final(self).lock) == *final(old(self).lock),
    {
        self.lock.get_ref_mut()
    }

    /// Ends the acquisition: the lock is marked as free and keeps the value
    /// that the guard last saw.
    pub fn release(self)
        requires
            self.holds_lock(),
        ensures
            final(self.lock)@ == old(self.lock)@.unlock_step(),
    {
        self.lock.clear_lock();
    }
}

} // verus!
