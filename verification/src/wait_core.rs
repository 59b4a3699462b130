//! The shared count with its lock and its condition variable.

use vstd::prelude::*;
use crate::count::{
    after_acquire,
    after_release,
    count_after_acquire,
    count_after_release,
    INITIAL_COUNT,
};
use crate::error::BlockError;
use crate::lock::{held, made_with, new_count_mutex, read_count, wait_while_blocked, write_count};
use std::sync::{Condvar, LockResult, Mutex, MutexGuard};

verus! {

/// The count of live handles, the mutex that serialises every access to it,
/// and the condition variable on which teardown sleeps.
pub struct WaitCore {
    count: Mutex<usize>,
    cond: Condvar,
}

impl WaitCore {
    /// The count that the core started with, before any handle was counted.
    pub closed spec fn initial_count(&self) -> nat {
        made_with(self.count) as nat
    }

    /// A core that starts with the initial count: no handle is counted yet.
    pub fn new() -> (core: Self)
        ensures
            core.initial_count() == INITIAL_COUNT,
    {
        WaitCore { count: new_count_mutex(INITIAL_COUNT), cond: Condvar::new() }
    }

    /// Counts one more handle in the count that `guard` holds. A full counter
    /// is left as it is and reported as `Exhausted`.
    pub fn acquire_locked(guard: &mut MutexGuard<'_, usize>) -> (r: Result<(), BlockError>)
        ensures
            match r {
                Ok(()) => after_acquire(held(*old(guard)) as nat) == Some(
                    held(*final(guard)) as nat,
                ),
                Err(e) => {
                    &&& e == BlockError::Exhausted
                    &&& after_acquire(held(*old(guard)) as nat).is_none()
                    &&& held(*final(guard)) == held(*old(guard))
                },
            },
    {
        let seen: usize = read_count(guard);
        match count_after_acquire(seen) {
            Ok(next) => {
                write_count(guard, next);
                Ok(())
            },
            Err(e) => Err(e),
        }
    }

    /// Counts one handle less in the count that `guard` holds. A count of
    /// zero is left as it is and reported as `Unbalanced`.
    pub fn release_locked(guard: &mut MutexGuard<'_, usize>) -> (r: Result<(), BlockError>)
        ensures
            match r {
                Ok(()) => after_release(held(*old(guard)) as nat) == Some(
                    held(*final(guard)) as nat,
                ),
                Err(e) => {
                    &&& e == BlockError::Unbalanced
                    &&& after_release(held(*old(guard)) as nat).is_none()
                    &&& held(*final(guard)) == held(*old(guard))
                },
            },
    {
        let seen: usize = read_count(guard);
        match count_after_release(seen) {
            Ok(next) => {
                write_count(guard, next);
                Ok(())
            },
            Err(e) => Err(e),
        }
    }

    /// What is done once the lock has answered a call for one more handle.
    /// Under a guard the handle is counted, unless the counter is full; a
    /// poisoned lock is reported as `Poisoned`. The lock is given up on
    /// return.
    pub fn acquire_after_lock(locked: LockResult<MutexGuard<'_, usize>>) -> (r: Result<
        (),
        BlockError,
    >)
        ensures
            match locked {
                Ok(guard) => match r {
                    Ok(()) => after_acquire(held(guard) as nat).is_some(),
                    Err(e) => {
                        &&& e == BlockError::Exhausted
                        &&& after_acquire(held(guard) as nat).is_none()
                    },
                },
                Err(_) => r matches Err(e) && e == BlockError::Poisoned,
            },
    {
        match locked {
            Ok(mut guard) => Self::acquire_locked(&mut guard),
            Err(_) => Err(BlockError::Poisoned),
        }
    }

    /// What is done once the lock has answered the release of a handle.
    /// Under a guard the handle is counted off and one thread that sleeps on
    /// `cond` is woken, unless the count is zero already: then nothing is
    /// counted and nobody is woken. A poisoned lock is reported as
    /// `Poisoned`. The lock is given up on return, after the wake-up.
    pub fn release_after_lock(cond: &Condvar, locked: LockResult<MutexGuard<'_, usize>>) -> (r:
        Result<(), BlockError>)
        ensures
            match locked {
                Ok(guard) => match r {
                    Ok(()) => after_release(held(guard) as nat).is_some(),
                    Err(e) => {
                        &&& e == BlockError::Unbalanced
                        &&& after_release(held(guard) as nat).is_none()
                    },
                },
                Err(_) => r matches Err(e) && e == BlockError::Poisoned,
            },
    {
        match locked {
            Ok(mut guard) => {
                let done = Self::release_locked(&mut guard);
                if done.is_ok() {
                    cond.notify_one();
                }
                done
            },
            Err(_) => Err(BlockError::Poisoned),
        }
    }

    /// What is told once the lock has answered a question for the count:
    /// under a guard the count that the guard holds, and `Poisoned` for a
    /// poisoned lock. The lock is given up on return.
    pub fn pending_after_lock(locked: LockResult<MutexGuard<'_, usize>>) -> (r: Result<
        usize,
        BlockError,
    >)
        ensures
            match locked {
                Ok(guard) => r == Ok::<usize, BlockError>(held(guard)),
                Err(_) => r == Err::<usize, BlockError>(BlockError::Poisoned),
            },
    {
        match locked {
            Ok(guard) => Ok(read_count(&guard)),
            Err(_) => Err(BlockError::Poisoned),
        }
    }

    /// What is told once a wait has ended: success where the lock came back
    /// with its guard, and `Poisoned` where it came back poisoned. The lock
    /// is given up on return.
    pub fn wait_ended(waited: LockResult<MutexGuard<'_, usize>>) -> (r: Result<(), BlockError>)
        ensures
            match waited {
                Ok(_) => r is Ok,
                Err(_) => r matches Err(e) && e == BlockError::Poisoned,
            },
    {
        match waited {
            Ok(_) => Ok(()),
            Err(_) => Err(BlockError::Poisoned),
        }
    }

    /// Takes the lock, counts one more handle and gives the lock up.
    pub fn acquire(&self) -> (r: Result<(), BlockError>)
        ensures
            r matches Err(e) ==> e == BlockError::Poisoned || e == BlockError::Exhausted,
    {
        Self::acquire_after_lock(self.count.lock())
    }

    /// Takes the lock, counts one handle less, wakes the waiting teardown and
    /// gives the lock up. Nobody is woken where nothing was counted.
    pub fn release(&self) -> (r: Result<(), BlockError>)
        ensures
            r matches Err(e) ==> e == BlockError::Poisoned || e == BlockError::Unbalanced,
    {
        Self::release_after_lock(&self.cond, self.count.lock())
    }

    /// Takes the lock, reads how many handles are counted at that moment and
    /// gives the lock up. By the time the caller looks at the number, other
    /// threads may have changed the count.
    pub fn pending(&self) -> (r: Result<usize, BlockError>)
        ensures
            r matches Err(e) ==> e == BlockError::Poisoned,
    {
        Self::pending_after_lock(self.count.lock())
    }

    /// Takes the lock and sleeps on the condition variable until the count is
    /// zero. With a count of zero it returns without sleeping. A release
    /// wakes one sleeper only, so one thread at a time is to wait on a core.
    pub fn wait_until_zero(&self) -> (r: Result<(), BlockError>)
        ensures
            r matches Err(e) ==> e == BlockError::Poisoned,
    {
        match self.count.lock() {
            Ok(guard) => {
                let waited = wait_while_blocked(&self.cond, guard);
                // Where the wait ends well, it ends with no handle counted.
                assert(waited matches Ok(settled) ==> held(settled) == 0);
                Self::wait_ended(waited)
            },
            Err(poisoned) => Self::wait_ended(Err(poisoned)),
        }
    }
}

} // verus!
