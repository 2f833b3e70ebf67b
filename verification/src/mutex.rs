//! The contract that a lock has to meet.

use crate::error::{TryLockError, TryLockResult};
use crate::guard::MutexGuard;
use crate::raw::RawMutex;
use vstd::prelude::*;

verus! {

/// A mutual-exclusion lock around a value of type `T`.
///
/// `try_lock` is the one checked way to a lock's value, and the only part
/// of a lock that its users call. An implementation builds it from the
/// primitives of [`RawMutex`] and from [`MutexGuard::new`].
pub trait Mutex<T>: RawMutex<T> {
    /// Attempts to take the lock without waiting.
    ///
    /// A held lock answers `WouldBlock` and stays exactly as it was. A free
    /// lock that is poisoned answers `Poisoned`, stays free and keeps its
    /// value. A free lock that is sound becomes held and answers with the
    /// guard of that acquisition; what the guard leaves behind is what the
    /// lock holds afterwards.
    fn try_lock(&mut self) -> (r: TryLockResult<MutexGuard<'_, T, Self>>)
        ensures
            r is Ok <==> old(self)@.grants(),
            r matches Err(TryLockError::WouldBlock) <==> old(self)@.locked,
            match r {
                Ok(g) => {
                    &&& old(self)@.grants()
                    &&& g.lock@ == old(self)@.lock_step()
                    &&& *final(g.lock) == *final(self)
                },
                Err(TryLockError::WouldBlock) => {
                    &&& old(self)@.locked
                    &&& *final(self) == *old(self)
                },
                Err(TryLockError::Poisoned(_)) => {
                    &&& !old(self)@.locked
                    &&& old(self)@.poisoned
                    &&& !final(self)@.locked
                    &&& final(self)@.data == old(self)@.data
                },
            },
    ;
}

} // verus!
