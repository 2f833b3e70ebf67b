//! The mathematical model of a lock, and the steps it can take.

use vstd::prelude::*;

verus! {

/// All that the contract says of a lock at one moment.
pub struct LockState<T> {
    /// An acquisition is outstanding.
    pub locked: bool,
    /// An earlier holder ended abnormally.
    pub poisoned: bool,
    /// The protected value.
    pub data: T,
}

impl<T> LockState<T> {
    /// An acquisition attempt succeeds: the lock is free and sound.
    pub open spec fn grants(self) -> bool {
        !self.locked && !self.poisoned
    }

    /// The lock may be marked as held: it is free.
    pub open spec fn may_lock(self) -> bool {
        !self.locked
    }

    /// The lock may be marked as free: it is held.
    pub open spec fn may_unlock(self) -> bool {
        self.locked
    }

    /// This state, marked as held.
    pub open spec fn lock_step(self) -> Self {
        LockState { locked: true, ..self }
    }

    /// This state, marked as free.
    pub open spec fn unlock_step(self) -> Self {
        LockState { locked: false, ..self }
    }

    /// This state, once `value` has been written to the protected value.
    pub open spec fn write_step(self, value: T) -> Self {
        LockState { data: value, ..self }
    }
}

} // verus!
