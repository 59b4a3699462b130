//! A scoped borrow broadcaster.
//!
//! The owner of a value wraps a reference to it in a [`Blocker`] and hands
//! out any number of [`Blockref`] handles. Each handle reads the value and
//! may be moved to another thread. The owner ends the guard with
//! [`Blocker::teardown`], which sleeps until every handle has been released:
//! when it returns, nobody else is looking at the value any more.
//!
//! Guard and handles share a [`WaitCore`]: a count of live handles behind a
//! mutex, and a condition variable on which teardown sleeps. Handing out a
//! handle adds one to the count, releasing it takes one away and wakes the
//! sleeper, and the sleeper looks at the count again after every wake-up.
//!
//! Nothing here panics. A poisoned lock, a full counter and a release too
//! many are reported as a [`BlockError`]. A handle is given up by
//! [`Blockref::release`] and a guard by [`Blocker::teardown`]; merely
//! dropping them does neither. A handle that is dropped without `release`
//! stays counted, and the teardown of its guard then never returns.
//!
//! What is proved, and of what:
//! - `count` holds the arithmetic of the count and the laws that follow from
//!   it: the count is the number of handles handed out less the number
//!   released, and teardown waits exactly while that number is above zero.
//! - `wait_core` proves of the sections that run under the lock that they
//!   write back what `count` says, and of what follows each answer of the
//!   lock what is reported for it.
//! - `lock` lists what is believed of `std::sync` without proof. What the
//!   mutex holds while nobody holds its guard is decided by other threads, so
//!   the functions that take the lock themselves promise only which errors
//!   they can report.

pub mod blocker;
pub mod blockref;
pub mod count;
pub mod error;
pub mod lock;
pub mod wait_core;

pub use blocker::Blocker;
pub use blockref::Blockref;
pub use error::BlockError;
pub use wait_core::WaitCore;
