//! The handle: read access to the guarded value for as long as it is held.

use vstd::prelude::*;
use crate::error::BlockError;
use crate::wait_core::WaitCore;
use std::ops::Deref;
use std::sync::Arc;

verus! {

/// A handle on the value that a `Blocker` guards. It is counted from the
/// moment it is made until it is released, and the guard's teardown does not
/// return while it is counted. A handle that is let go of without `release`
/// stays counted for ever.
pub struct Blockref<'a, T> {
    data: &'a T,
    core: Arc<WaitCore>,
}

impl<'a, T> View for Blockref<'a, T> {
    type V = T;

    /// The value that the handle reads.
    closed spec fn view(&self) -> T {
        *self.data
    }
}

impl<'a, T> Blockref<'a, T> {
    /// The core in which this handle is counted.
    pub closed spec fn wait_core(&self) -> WaitCore {
        *self.core
    }

    /// Counts one more handle in `core` and, where that was done, makes the
    /// handle on `data`. Where it was not done, no handle is made.
    pub(crate) fn new(data: &'a T, core: &Arc<WaitCore>) -> (r: Result<Self, BlockError>)
        ensures
            match r {
                Ok(handle) => handle@ == *data && handle.wait_core() == **core,
                Err(e) => e == BlockError::Poisoned || e == BlockError::Exhausted,
            },
    {
        match core.acquire() {
            Ok(()) => Ok(Blockref { data, core: core.clone() }),
            Err(e) => Err(e),
        }
    }

    /// Gives the handle up: counts one handle less in its core and wakes the
    /// teardown that may be waiting there.
    pub fn release(self) -> (r: Result<(), BlockError>)
        ensures
            r matches Err(e) ==> e == BlockError::Poisoned || e == BlockError::Unbalanced,
    {
        self.core.release()
    }
}

impl<'a, T> Deref for Blockref<'a, T> {
    type Target = T;

    /// The guarded value.
    fn deref(&self) -> (value: &T)
        ensures
            *value == self@,
    {
        self.data
    }
}

} // verus!
