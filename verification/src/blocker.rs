//! The guard: wraps a borrowed value, hands out handles on it, and at
//! teardown waits until every handle has been released.

use vstd::prelude::*;
use crate::blockref::Blockref;
use crate::count::INITIAL_COUNT;
use crate::error::BlockError;
use crate::wait_core::WaitCore;
use std::sync::Arc;

verus! {

/// The owner's side of a shared borrow. The owner goes on owning the value and
/// must leave it alone until `teardown` has returned.
pub struct Blocker<'a, T> {
    data: &'a T,
    core: Arc<WaitCore>,
}

impl<'a, T> View for Blocker<'a, T> {
    type V = T;

    /// The guarded value.
    closed spec fn view(&self) -> T {
        *self.data
    }
}

impl<'a, T> Blocker<'a, T> {
    /// The core in which this guard's handles are counted.
    pub closed spec fn wait_core(&self) -> WaitCore {
        *self.core
    }

    /// A guard on `data` that has handed out no handle yet. The value is
    /// neither copied nor taken over.
    pub fn new(data: &'a T) -> (guard: Self)
        ensures
            guard@ == *data,
            guard.wait_core().initial_count() == INITIAL_COUNT,
    {
        Blocker { data, core: Arc::new(WaitCore::new()) }
    }

    /// Hands out one more handle on the guarded value, counted in this
    /// guard's core. Each call is independent of the others.
    pub fn get(&self) -> (r: Result<Blockref<'a, T>, BlockError>)
        ensures
            match r {
                Ok(handle) => handle@ == self@ && handle.wait_core() == self.wait_core(),
                Err(e) => e == BlockError::Poisoned || e == BlockError::Exhausted,
            },
    {
        Blockref::new(self.data, &self.core)
    }

    /// How many of this guard's handles are outstanding at the moment of the
    /// call. By the time the caller looks at the number, other threads may
    /// have released theirs.
    pub fn pending(&self) -> (r: Result<usize, BlockError>)
        ensures
            r matches Err(e) ==> e == BlockError::Poisoned,
    {
        self.core.pending()
    }

    /// Ends the guard: sleeps until every handle that it handed out has been
    /// released, then returns. With no handle outstanding it returns at once.
    /// There is no timeout. The guard is taken by value, so no handle can be
    /// handed out once teardown has begun.
    pub fn teardown(self) -> (r: Result<(), BlockError>)
        ensures
            r matches Err(e) ==> e == BlockError::Poisoned,
    {
        self.core.wait_until_zero()
    }
}

/// A handle reads what the owner saw when the guard was made: whatever
/// `Blocker::new` made of `data`, whichever handle `get` then handed out, and
/// whenever that handle is read, the value read is `*data`.
pub proof fn lemma_handle_reads_guarded_value<'a, T>(
    data: &'a T,
    guard: Blocker<'a, T>,
    handle: Blockref<'a, T>,
    value: &T,
)
    requires
        call_ensures(Blocker::<'a, T>::new, (data,), guard),
        call_ensures(Blocker::<'a, T>::get, (&guard,), Ok(handle)),
        call_ensures(<Blockref<'a, T> as std::ops::Deref>::deref, (&handle,), value),
    ensures
        *value == *data,
{
}

} // verus!
