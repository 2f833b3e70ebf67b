//! The primitives that a lock is made of.

use crate::state::LockState;
use vstd::prelude::*;

verus! {

/// The four operations from which a guard is built, and the state they act
/// on.
///
/// None of them checks anything when it runs: each trusts its caller, and
/// its precondition says what it trusts. They are meant for the
/// implementation of `try_lock` and for the guard, not for users of a lock.
pub trait RawMutex<T>: Sized {
    /// The state of the lock: held or free, poisoned or sound, and the
    /// protected value. What poisons a lock is for the implementation to
    /// define.
    spec fn view(&self) -> LockState<T>;

    /// Marks a free lock as held. Only a successful `try_lock` may do this.
    fn set_lock(&mut self)
        requires
            old(self)@.may_lock(),
        ensures
            final(self)@ == old(self)@.lock_step(),
    ;

    /// Marks a held lock as free. Only the guard's release may do this.
    fn clear_lock(&mut self)
        requires
            old(self)@.may_unlock(),
        ensures
            final(self)@ == old(self)@.unlock_step(),
    ;

    /// Read access to the protected value, for the holder of the lock.
    fn get_ref(&self) -> (r: &T)
        requires
            self@.locked,
        ensures
            *r == self@.data,
    ;

    /// Write access to the protected value, for the holder of the lock.
    /// The lock stays held; its value becomes whatever is written.
    fn get_ref_mut(&mut self) -> (r: &mut T)
        requires
            old(self)@.locked,
        ensures
            *r == old(self)@.data,
            final(self)@ == old(self)@.write_step(*final(r)),
    ;
}

} // verus!
