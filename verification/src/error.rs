//! The ways in which an operation on the shared count can fail.

use vstd::prelude::*;

verus! {

/// Why an operation on the count of live handles was not carried out.
#[derive(Debug, Clone, Copy, PartialEq, Eq, Structural)]
pub enum BlockError {
    /// A thread panicked while it held the lock on the count, so the count can
    /// no longer be relied on. Nothing is retried and nothing is repaired.
    Poisoned,
    /// The count already stands at the largest value the machine can hold, so
    /// one more handle cannot be counted.
    Exhausted,
    /// A release found the count at zero: more handles were released than were
    /// ever handed out.
    Unbalanced,
}

} // verus!
