//! What follows from the contract, for every lock that meets it.

use crate::state::LockState;
use vstd::prelude::*;

verus! {

/// One thing that can happen to a lock.
pub enum Event<T> {
    /// Somebody attempts to acquire the lock.
    Attempt,
    /// A guard writes a value.
    Write(T),
    /// A guard is released.
    Release,
}

/// A lock and the number of guards that exist for it.
pub struct Moment<T> {
    /// The state of the lock.
    pub lock: LockState<T>,
    /// How many guards have been handed out and not yet released.
    pub guards: nat,
}

/// `e` leads from `a` to `b`. An attempt hands out a guard exactly where
/// the lock grants it, and otherwise leaves the lock free or held as it
/// was; writing and releasing take a guard.
pub open spec fn step<T>(a: Moment<T>, e: Event<T>, b: Moment<T>) -> bool {
    match e {
        Event::Attempt => if a.lock.grants() {
            b.lock == a.lock.lock_step() && b.guards == a.guards + 1
        } else if a.lock.locked {
            b == a
        } else {
            !b.lock.locked && b.lock.data == a.lock.data && b.guards == a.guards
        },
        Event::Write(v) => a.guards > 0 && b.lock == a.lock.write_step(v) && b.guards == a.guards,
        Event::Release => a.guards > 0 && b.lock == a.lock.unlock_step() && b.guards + 1
            == a.guards,
    }
}

/// `moments` is what a lock goes through under `events`, starting free and
/// with no guard.
pub open spec fn is_history<T>(moments: Seq<Moment<T>>, events: Seq<Event<T>>) -> bool {
    &&& moments.len() == events.len() + 1
    &&& !moments[0].lock.locked
    &&& moments[0].guards == 0
    &&& forall|i: int|
        0 <= i < events.len() ==> step(#[trigger] moments[i], events[i], moments[i + 1])
}

/// Mutual exclusion: whatever happens to a lock, in whatever order, there
/// is never more than one guard for it, and there is one exactly while the
/// lock is held.
pub proof fn lemma_at_most_one_guard<T>(moments: Seq<Moment<T>>, events: Seq<Event<T>>, k: int)
    requires
        is_history(moments, events),
        0 <= k < moments.len(),
    ensures
        moments[k].guards <= 1,
        moments[k].guards == 1 <==> moments[k].lock.locked,
    decreases k,
{
    if k > 0 {
        lemma_at_most_one_guard(moments, events, k - 1);
        assert(step(moments[k - 1], events[k - 1], moments[k - 1 + 1]));
    }
}

/// Releasing leaves no trace of the acquisition: a sound lock that was
/// held grants the next attempt as soon as it has been marked as free.
pub proof fn lemma_release_allows_next<T>(s: LockState<T>)
    requires
        s.may_unlock(),
        !s.poisoned,
    ensures
        s.unlock_step().grants(),
        s.unlock_step().data == s.data,
{
}

/// A lock that has been marked as held may not be marked as held again
/// before it has been marked as free.
pub proof fn lemma_no_second_lock<T>(s: LockState<T>)
    requires
        s.may_lock(),
    ensures
        !s.lock_step().may_lock(),
        s.lock_step().unlock_step().may_lock(),
{
}

/// A lock that has been marked as free may not be marked as free again
/// before it has been marked as held.
pub proof fn lemma_no_second_unlock<T>(s: LockState<T>)
    requires
        s.may_unlock(),
    ensures
        !s.unlock_step().may_unlock(),
        s.unlock_step().lock_step().may_unlock(),
{
}

/// No update is lost: what one guard wrote last is what the lock protects
/// after the release, and what the next guard finds.
pub proof fn lemma_write_reaches_next_guard<T>(s: LockState<T>, value: T)
    requires
        s.locked,
        !s.poisoned,
    ensures
        s.write_step(value).data == value,
        s.write_step(value).unlock_step().data == value,
        s.write_step(value).unlock_step().grants(),
        s.write_step(value).unlock_step().lock_step().data == value,
        s.write_step(value).unlock_step().lock_step() == s.write_step(value),
{
}

} // verus!
