use scoped_lock::{FlagMutex, Mutex, MutexGuard, PoisonError, RawMutex, TryLockError};

fn acquire<'a>(lock: &'a mut FlagMutex<i32>) -> MutexGuard<'a, i32, FlagMutex<i32>> {
    match lock.try_lock() {
        Ok(guard) => guard,
        Err(_) => panic!("the lock should have been granted"),
    }
}

#[test]
fn write_is_seen_by_next_guard() {
    let mut lock = FlagMutex::new(0);
    let mut g1 = acquire(&mut lock);
    *g1.deref_mut() = 5;
    g1.release();
    let g2 = acquire(&mut lock);
    assert_eq!(*g2.deref(), 5);
    g2.release();
    assert_eq!(lock.into_inner(), 5);
}

#[test]
fn second_attempt_while_held_would_block() {
    let mut lock = FlagMutex::new(0);
    let _g1 = acquire(&mut lock);
    assert!(lock.locked());
    let second = lock.try_lock();
    assert!(matches!(second, Err(TryLockError::WouldBlock)));
}

#[test]
fn attempt_after_release_succeeds() {
    let mut lock = FlagMutex::new(0);
    let g1 = acquire(&mut lock);
    g1.release();
    assert!(!lock.locked());
    let g2 = lock.try_lock();
    assert!(g2.is_ok());
}

#[test]
fn refused_attempt_changes_nothing() {
    let mut lock = FlagMutex::new(7);
    let mut g1 = acquire(&mut lock);
    *g1.deref_mut() = 8;
    assert!(lock.try_lock().is_err());
    assert!(lock.try_lock().is_err());
    assert!(lock.locked());
    assert!(!lock.poisoned());
    assert_eq!(lock.into_inner(), 8);
}

#[test]
fn new_lock_is_free_and_sound() {
    let lock = FlagMutex::new(3);
    assert!(!lock.locked());
    assert!(!lock.poisoned());
    assert_eq!(lock.into_inner(), 3);
}

#[test]
fn guard_reads_what_it_wrote() {
    let mut lock = FlagMutex::new(1);
    let mut g = acquire(&mut lock);
    assert_eq!(*g.deref(), 1);
    *g.deref_mut() += 10;
    assert_eq!(*g.deref(), 11);
    *g.deref_mut() = -4;
    assert_eq!(*g.deref(), -4);
    g.release();
    assert_eq!(lock.into_inner(), -4);
}

#[test]
fn guard_dropped_without_release_keeps_lock_held() {
    let mut lock = FlagMutex::new(0);
    {
        let mut g = acquire(&mut lock);
        *g.deref_mut() = 2;
    }
    assert!(lock.locked());
    assert!(matches!(lock.try_lock(), Err(TryLockError::WouldBlock)));
    assert_eq!(lock.into_inner(), 2);
}

#[test]
fn many_cycles_keep_every_update() {
    let mut lock = FlagMutex::new(0);
    let mut round = 0;
    while round < 100 {
        let mut g = acquire(&mut lock);
        assert_eq!(*g.deref(), round);
        *g.deref_mut() += 1;
        g.release();
        assert!(!lock.locked());
        round += 1;
    }
    assert_eq!(lock.into_inner(), 100);
}

#[test]
fn poisoned_lock_reports_poison() {
    let mut lock = FlagMutex::new(9);
    lock.poison();
    assert!(lock.poisoned());
    assert!(!lock.locked());
    assert!(matches!(lock.try_lock(), Err(TryLockError::Poisoned(_))));
    assert!(!lock.locked());
    assert!(lock.poisoned());
    assert_eq!(lock.into_inner(), 9);
}

#[test]
fn held_lock_would_block_even_when_poisoned() {
    let mut lock = FlagMutex::new(9);
    let _g = acquire(&mut lock);
    lock.poison();
    assert!(lock.locked());
    assert!(matches!(lock.try_lock(), Err(TryLockError::WouldBlock)));
    assert!(lock.locked());
}

#[test]
fn poison_during_hold_shows_after_release() {
    let mut lock = FlagMutex::new(1);
    lock.set_lock();
    lock.poison();
    MutexGuard::new(&mut lock).release();
    assert!(!lock.locked());
    assert!(matches!(lock.try_lock(), Err(TryLockError::Poisoned(_))));
}

#[test]
fn primitives_mark_and_clear() {
    let mut lock = FlagMutex::new(String::from("a"));
    lock.set_lock();
    assert!(lock.locked());
    assert_eq!(lock.get_ref(), "a");
    lock.get_ref_mut().push('b');
    assert_eq!(lock.get_ref(), "ab");
    assert!(lock.locked());
    lock.clear_lock();
    assert!(!lock.locked());
    assert!(!lock.poisoned());
    lock.set_lock();
    assert!(lock.locked());
    lock.clear_lock();
    assert_eq!(lock.into_inner(), "ab");
}

#[test]
fn guard_made_by_hand_releases_the_lock() {
    let mut lock = FlagMutex::new(vec![1, 2]);
    lock.set_lock();
    let mut g = MutexGuard::new(&mut lock);
    g.deref_mut().push(3);
    assert_eq!(g.deref().len(), 3);
    g.release();
    assert!(!lock.locked());
    assert_eq!(lock.into_inner(), vec![1, 2, 3]);
}

fn bump<M: Mutex<u64>>(lock: &mut M) -> bool {
    match lock.try_lock() {
        Ok(mut g) => {
            *g.deref_mut() += 1;
            g.release();
            true
        }
        Err(_) => false,
    }
}

#[test]
fn any_lock_works_with_the_guard() {
    let mut lock = FlagMutex::new(40u64);
    assert!(bump(&mut lock));
    assert!(bump(&mut lock));
    lock.set_lock();
    assert!(!bump(&mut lock));
    lock.clear_lock();
    assert_eq!(lock.into_inner(), 42);
}

#[test]
fn poison_signal_can_be_made() {
    let e: TryLockError<()> = TryLockError::Poisoned(PoisonError::new());
    assert!(matches!(e, TryLockError::Poisoned(_)));
    let w: TryLockError<()> = TryLockError::WouldBlock;
    assert!(matches!(w, TryLockError::WouldBlock));
}
