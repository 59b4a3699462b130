//! What this library takes on trust from `std::sync`.
//!
//! The mutex, its guard and the condition variable are opaque to Verus.
//! Nothing is said of what a mutex holds while it is unlocked: other threads
//! decide that. Only a guard has contents, because whoever holds the guard is
//! alone with them.
//!
//! Two things that `std::sync` asks of its callers cannot be written as a
//! `requires` and are kept by `wait_core`, the one caller of this file: no
//! function there takes the lock while it holds a guard, and a condition
//! variable is only ever waited on with the guard of the mutex that is kept
//! beside it.

use vstd::prelude::*;
use crate::count::{must_wait, teardown_blocks};
use std::sync::{Condvar, LockResult, Mutex, MutexGuard, PoisonError};

verus! {

/// `std::sync::Mutex`, declared so that it can stand in fields and signatures.
#[verifier::external_type_specification]
#[verifier::external_body]
#[verifier::reject_recursive_types(T)]
pub struct ExMutex<T: ?Sized>(Mutex<T>);

/// `std::sync::MutexGuard`, declared so that it can stand in signatures.
#[verifier::external_type_specification]
#[verifier::external_body]
#[verifier::reject_recursive_types(T)]
pub struct ExMutexGuard<'a, T: ?Sized + 'a>(MutexGuard<'a, T>);

/// `std::sync::PoisonError`, declared so that a failed lock can be matched on.
#[verifier::external_type_specification]
#[verifier::external_body]
#[verifier::reject_recursive_types(T)]
pub struct ExPoisonError<T>(PoisonError<T>);

/// `std::sync::Condvar`, declared so that it can stand in fields and signatures.
#[verifier::external_type_specification]
#[verifier::external_body]
pub struct ExCondvar(Condvar);

/// The count that a guard gives access to: what reading through the guard
/// yields for as long as the guard is not written through.
pub uninterp spec fn held(guard: MutexGuard<'_, usize>) -> usize;

/// The count that a mutex was made to protect: what `Mutex::new` was given
/// when it made this mutex. It is fixed for the life of the mutex and says
/// nothing of what the mutex holds later.
pub uninterp spec fn made_with(mutex: Mutex<usize>) -> usize;

/// `Mutex::new` on a count: a new, unlocked mutex that protects `count`. The
/// one claim is that the mutex was made with `count`.
#[verifier::external_body]
pub(crate) fn new_count_mutex(count: usize) -> (mutex: Mutex<usize>)
    ensures
        made_with(mutex) == count,
{
    Mutex::new(count)
}

/// `Mutex::lock`: blocks until the lock is taken. Nothing is claimed of the
/// result: what the guard holds is whatever the last holder left, and the
/// error comes when a holder panicked. Taking the lock a second time on the
/// thread that holds it deadlocks or panics.
pub assume_specification<T: ?Sized>[ Mutex::<T>::lock ](mutex: &Mutex<T>) -> (r: LockResult<
    MutexGuard<'_, T>,
>);

/// `Condvar::new`: a new condition variable. Nothing is claimed of the result.
pub assume_specification[ Condvar::new ]() -> (cond: Condvar);

/// `Condvar::notify_one`: wakes one thread that waits on the condition
/// variable, if there is one. It returns nothing and nothing is claimed.
pub assume_specification[ Condvar::notify_one ](cond: &Condvar);

/// Reads the count through the guard (`Deref::deref` of `MutexGuard`): the
/// result is what the guard holds.
#[verifier::external_body]
pub(crate) fn read_count(guard: &MutexGuard<'_, usize>) -> (count: usize)
    ensures
        count == held(*guard),
{
    **guard
}

/// Writes the count through the guard (`DerefMut::deref_mut` of
/// `MutexGuard`): afterwards the guard holds what was written.
#[verifier::external_body]
pub(crate) fn write_count(guard: &mut MutexGuard<'_, usize>, count: usize)
    ensures
        held(*final(guard)) == count,
{
    **guard = count;
}

/// `Condvar::wait_while` with `teardown_blocks` as the condition: gives the
/// lock up and sleeps, and looks at the count again after each wake-up, until
/// the count does not block teardown. The condition is checked before the
/// first sleep. Where the call returns a guard, that guard holds a count that
/// does not block; the error comes when the mutex was poisoned meanwhile. The
/// call does not return for as long as the count blocks. A condition variable
/// may be used with one mutex only, or the call may panic: `guard` has to
/// come from the mutex that is kept beside `cond`.
#[verifier::external_body]
pub(crate) fn wait_while_blocked<'a>(cond: &Condvar, guard: MutexGuard<'a, usize>) -> (r:
    LockResult<MutexGuard<'a, usize>>)
    ensures
        r matches Ok(settled) ==> !must_wait(held(settled) as nat),
{
    cond.wait_while(guard, |count: &mut usize| teardown_blocks(*count))
}

} // verus!
