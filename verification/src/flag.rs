//! The smallest lock that meets the contract: a flag beside the value.

use crate::error::{PoisonError, TryLockError, TryLockResult};
use crate::guard::MutexGuard;
use crate::mutex::Mutex;
use crate::raw::RawMutex;
use crate::state::LockState;
use vstd::prelude::*;

verus! {

/// A lock for one owner at a time, with no waiting and no atomics: the
/// exclusive borrow that every operation takes does the synchronising.
pub struct FlagMutex<T> {
    held: bool,
    poisoned: bool,
    data: T,
}

impl<T> FlagMutex<T> {
    /// A free, sound lock around `data`.
    pub fn new(data: T) -> (m: Self)
        ensures
            m@ == (LockState { locked: false, poisoned: false, data }),
    {
        FlagMutex { held: false, poisoned: false, data }
    }

    /// Whether the lock is held.
    pub fn locked(&self) -> (b: bool)
        ensures
            b == self@.locked,
    {
        self.held
    }

    /// Whether the lock is poisoned.
    pub fn poisoned(&self) -> (b: bool)
        ensures
            b == self@.poisoned,
    {
        self.poisoned
    }

    /// Marks the lock as poisoned, for a holder that could not finish its
    /// work. Nothing else changes.
    pub fn poison(&mut self)
        ensures
            final(self)@ == (LockState { poisoned: true, ..old(self)@ }),
    {
        self.poisoned = true;
    }

    /// Gives up the lock for the value it protects.
    pub fn into_inner(self) -> (data: T)
        ensures
            data == self@.data,
    {
        self.data
    }
}

impl<T> RawMutex<T> for FlagMutex<T> {
    closed spec fn view(&self) -> LockState<T> {
        LockState { locked: self.held, poisoned: self.poisoned, data: self.data }
    }

    fn set_lock(&mut self) {
        self.held = true;
    }

    fn clear_lock(&mut self) {
        self.held = false;
    }

    fn get_ref(&self) -> (r: &T) {
        &self.data
    }

    fn get_ref_mut(&mut self) -> (r: &mut T) {
        &mut self.data
    }
}

impl<T> Mutex<T> for FlagMutex<T> {
    fn try_lock(&mut self) -> (r: TryLockResult<MutexGuard<'_, T, Self>>) {
        if self.held {
            Err(TryLockError::WouldBlock)
        } else if self.poisoned {
            Err(TryLockError::Poisoned(PoisonError::new()))
        } else {
            self.set_lock();
            Ok(MutexGuard::new(self))
        }
    }
}

} // verus!
