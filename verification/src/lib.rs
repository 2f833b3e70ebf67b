//! A minimal contract for mutual-exclusion locks, and a guard built on it.
//!
//! [`Mutex`] is what a lock offers its users: one checked, non-blocking
//! acquisition. [`RawMutex`] holds the four primitive operations that the
//! guard composes, with the state they act on, [`LockState`].
//! [`MutexGuard`] stands for one successful acquisition: it gives access to
//! the protected value and hands the lock back when it is released.
//! [`FlagMutex`] is the smallest lock that meets the contract.

pub mod error;
pub mod flag;
pub mod guard;
pub mod laws;
pub mod mutex;
pub mod raw;
pub mod state;

pub use error::{PoisonError, TryLockError, TryLockResult};
pub use flag::FlagMutex;
pub use guard::MutexGuard;
pub use mutex::Mutex;
pub use raw::RawMutex;
pub use state::LockState;
