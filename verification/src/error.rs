//! The outcome of an acquisition attempt that did not yield a guard.

use std::marker::PhantomData;
use vstd::prelude::*;

verus! {

/// What a non-blocking acquisition returns: the guard, or the reason why
/// there is none.
pub type TryLockResult<Guard> = Result<Guard, TryLockError<Guard>>;

/// Why an acquisition attempt yielded no guard.
pub enum TryLockError<T> {
    /// An earlier holder may have left the protected value in a broken state.
    Poisoned(PoisonError<T>),
    /// The lock is held at the moment; the attempt may be repeated later.
    WouldBlock,
}

/// The signal that a lock is poisoned. It carries no state: the type
/// parameter only records what the attempt would have returned.
pub struct PoisonError<T> {
    _type: PhantomData<T>,
}

impl<T> PoisonError<T> {
    /// The poison signal. All values of this type are equal.
    pub fn new() -> (e: Self)
        ensures
            e == Self::signal(),
    {
        PoisonError { _type: PhantomData }
    }

    /// The one value of this type.
    pub closed spec fn signal() -> Self {
        PoisonError { _type: PhantomData }
    }
}

} // verus!
