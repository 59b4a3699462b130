//! The arithmetic of the count of live handles.
//!
//! The count is a natural number that starts at zero, grows by one for each
//! handle handed out and shrinks by one for each handle released. Teardown of
//! the guard may go on exactly when the count is zero. Everything here is
//! sequential: the functions take the count as it was read under the lock and
//! say what is written back.

use vstd::prelude::*;
use crate::error::BlockError;

verus! {

/// The count of a guard that has handed out no handle yet.
pub const INITIAL_COUNT: usize = 0;

/// One change to the count.
#[derive(Debug, Clone, Copy, PartialEq, Eq, Structural)]
pub enum CountEvent {
    /// A handle is handed out.
    Acquire,
    /// A handle is released.
    Release,
}

/// The count after one more handle has been handed out, or `None` where the
/// counter is full.
pub open spec fn after_acquire(count: nat) -> Option<nat> {
    if count < usize::MAX {
        Some(count + 1)
    } else {
        None
    }
}

/// The count after one handle has been released, or `None` where no handle is
/// left to release.
pub open spec fn after_release(count: nat) -> Option<nat> {
    if count > 0 {
        Some((count - 1) as nat)
    } else {
        None
    }
}

/// Whether a teardown that finds this count has to wait.
pub open spec fn must_wait(count: nat) -> bool {
    count > 0
}

/// The count after one event, or `None` where the event is refused.
pub open spec fn after_event(count: nat, event: CountEvent) -> Option<nat> {
    match event {
        CountEvent::Acquire => after_acquire(count),
        CountEvent::Release => after_release(count),
    }
}

/// The count after a run of events, taken in order, or `None` where one of
/// them is refused.
pub open spec fn after_events(count: nat, events: Seq<CountEvent>) -> Option<nat>
    decreases events.len(),
{
    if events.len() == 0 {
        Some(count)
    } else {
        match after_events(count, events.drop_last()) {
            Some(reached) => after_event(reached, events.last()),
            None => None,
        }
    }
}

/// How many handles a run of events hands out.
pub open spec fn acquired(events: Seq<CountEvent>) -> nat
    decreases events.len(),
{
    if events.len() == 0 {
        0
    } else if events.last() == CountEvent::Acquire {
        acquired(events.drop_last()) + 1
    } else {
        acquired(events.drop_last())
    }
}

/// How many handles a run of events releases.
pub open spec fn released(events: Seq<CountEvent>) -> nat
    decreases events.len(),
{
    if events.len() == 0 {
        0
    } else if events.last() == CountEvent::Release {
        released(events.drop_last()) + 1
    } else {
        released(events.drop_last())
    }
}

/// `gets` acquisitions followed by `drops` releases.
pub open spec fn gets_then_drops(gets: nat, drops: nat) -> Seq<CountEvent> {
    Seq::new(gets, |i: int| CountEvent::Acquire) + Seq::new(drops, |i: int| CountEvent::Release)
}

/// Counts one more handle: the count that is to be written back, or
/// `Exhausted` where the counter is full.
pub fn count_after_acquire(count: usize) -> (r: Result<usize, BlockError>)
    ensures
        match r {
            Ok(next) => after_acquire(count as nat) == Some(next as nat),
            Err(e) => e == BlockError::Exhausted && after_acquire(count as nat).is_none(),
        },
{
    if count < usize::MAX {
        Ok(count + 1)
    } else {
        Err(BlockError::Exhausted)
    }
}

/// Counts one handle less: the count that is to be written back, or
/// `Unbalanced` where the count is already zero.
pub fn count_after_release(count: usize) -> (r: Result<usize, BlockError>)
    ensures
        match r {
            Ok(next) => after_release(count as nat) == Some(next as nat),
            Err(e) => e == BlockError::Unbalanced && after_release(count as nat).is_none(),
        },
{
    if count > 0 {
        Ok(count - 1)
    } else {
        Err(BlockError::Unbalanced)
    }
}

/// Whether teardown has to go on waiting at this count.
pub fn teardown_blocks(count: usize) -> (b: bool)
    ensures
        b == must_wait(count as nat),
{
    count != 0
}

/// The count is the number of live handles: after any run of events that
/// starts at the initial count and in which none is refused, the count is the
/// number of handles handed out less the number released, and never more were
/// released than handed out. Teardown has to wait exactly when a handle is
/// still live, and for as long as one is live a release is not refused.
pub proof fn lemma_count_is_live_handles(events: Seq<CountEvent>)
    requires
        after_events(INITIAL_COUNT as nat, events).is_some(),
    ensures
        released(events) <= acquired(events),
        after_events(INITIAL_COUNT as nat, events) == Some(
            (acquired(events) - released(events)) as nat,
        ),
        must_wait(after_events(INITIAL_COUNT as nat, events).unwrap()) <==> released(events)
            < acquired(events),
        released(events) < acquired(events) ==> after_events(
            INITIAL_COUNT as nat,
            events.push(CountEvent::Release),
        ).is_some(),
    decreases events.len(),
{
    if events.len() > 0 {
        lemma_count_is_live_handles(events.drop_last());
    }
    assert(events.push(CountEvent::Release).drop_last() =~= events);
}

/// Where a run of events is not refused, none of its beginnings is.
proof fn lemma_beginning_is_not_refused(count: nat, events: Seq<CountEvent>, at: int)
    requires
        after_events(count, events).is_some(),
        0 <= at <= events.len(),
    ensures
        after_events(count, events.take(at)).is_some(),
    decreases events.len(),
{
    if at == events.len() {
        assert(events.take(at) =~= events);
    } else {
        assert(events.drop_last().take(at) =~= events.take(at));
        lemma_beginning_is_not_refused(count, events.drop_last(), at);
    }
}

/// Teardown waits for every handle: at whatever point of a run of events
/// that starts at the initial count and in which none is refused a teardown
/// looks at the count, it has to wait exactly when a handle handed out up to
/// that point has not been released by then, in whatever order the handles
/// are released.
pub proof fn lemma_teardown_waits_for_every_handle(events: Seq<CountEvent>, at: int)
    requires
        after_events(INITIAL_COUNT as nat, events).is_some(),
        0 <= at <= events.len(),
    ensures
        after_events(INITIAL_COUNT as nat, events.take(at)).is_some(),
        must_wait(after_events(INITIAL_COUNT as nat, events.take(at)).unwrap()) <==> released(
            events.take(at),
        ) < acquired(events.take(at)),
{
    lemma_beginning_is_not_refused(INITIAL_COUNT as nat, events, at);
    lemma_count_is_live_handles(events.take(at));
}

/// After `gets` handles have been handed out and `drops` of them released,
/// the count is `gets - drops`, and teardown has to wait exactly when that
/// difference is above zero.
pub proof fn lemma_gets_then_drops(gets: nat, drops: nat)
    requires
        drops <= gets <= usize::MAX,
    ensures
        after_events(INITIAL_COUNT as nat, gets_then_drops(gets, drops)) == Some(
            (gets - drops) as nat,
        ),
        must_wait((gets - drops) as nat) <==> gets - drops > 0,
    decreases gets + drops,
{
    let events = gets_then_drops(gets, drops);
    if drops > 0 {
        assert(events.drop_last() =~= gets_then_drops(gets, (drops - 1) as nat));
        assert(events.last() == CountEvent::Release);
        lemma_gets_then_drops(gets, (drops - 1) as nat);
    } else if gets > 0 {
        assert(events.drop_last() =~= gets_then_drops((gets - 1) as nat, 0));
        assert(events.last() == CountEvent::Acquire);
        lemma_gets_then_drops((gets - 1) as nat, 0);
    } else {
        assert(events =~= Seq::<CountEvent>::empty());
    }
}

/// A guard that never handed out a handle does not wait at teardown.
pub proof fn lemma_fresh_count_does_not_block()
    ensures
        after_events(INITIAL_COUNT as nat, Seq::<CountEvent>::empty()) == Some(
            INITIAL_COUNT as nat,
        ),
        !must_wait(INITIAL_COUNT as nat),
{
}

} // verus!
