//! The counting protocol of a scope's guards.
//!
//! A scope keeps one unsigned counter. Handing out a guard and cloning one
//! add one to it, dropping a guard takes one off, and the drop that takes it
//! from 1 to 0 wakes whoever waits for the guards. The counter is updated by
//! atomic read-modify-write operations, each of which applies
//! [`next_count`] to what it finds, so that every history of a scope is one
//! sequence of [`GuardEvent`]s, whatever threads they came from.
//!
//! The counter has room for `u32::MAX - 1` guards. One more takes it to
//! `u32::MAX`, and there it stays, whatever is handed out or dropped
//! afterwards: a counter that has lost count never reads zero again, so that
//! the scope holds on to its data for good rather than let go of it too
//! early.
//!
//! This module states that protocol over such sequences and proves what the
//! scope relies on: the counter is the number of guards that are alive
//! unless it is stuck, it never reads zero while a guard is alive, and the
//! wake is raised by the drop of the last guard and by no other event.

use vstd::prelude::*;

verus! {

/// What can happen to the guards of one scope.
#[derive(Clone, Copy, Debug, PartialEq, Eq, Structural)]
pub enum GuardEvent {
    /// The scope hands out a new guard.
    Issue,
    /// A guard is cloned.
    Clone,
    /// A guard is dropped.
    Drop,
}

impl GuardEvent {
    /// By how much the event changes the number of guards that are alive.
    pub open spec fn delta(self) -> int {
        match self {
            GuardEvent::Issue => 1,
            GuardEvent::Clone => 1,
            GuardEvent::Drop => -1,
        }
    }

    /// Whether the event can happen while `live` guards are alive: only a
    /// guard that is alive can be cloned or dropped.
    pub open spec fn permitted(self, live: int) -> bool {
        match self {
            GuardEvent::Issue => 0 <= live,
            GuardEvent::Clone => 0 < live,
            GuardEvent::Drop => 0 < live,
        }
    }
}

/// How often `event` occurs in `trace`.
pub open spec fn occurrences(trace: Seq<GuardEvent>, event: GuardEvent) -> nat
    decreases trace.len(),
{
    if trace.len() == 0 {
        0
    } else {
        occurrences(trace.drop_last(), event) + if trace.last() == event {
            1nat
        } else {
            0nat
        }
    }
}

/// The guards handed out or cloned, less the guards dropped.
pub open spec fn net(trace: Seq<GuardEvent>) -> int {
    occurrences(trace, GuardEvent::Issue) + occurrences(trace, GuardEvent::Clone) - occurrences(
        trace,
        GuardEvent::Drop,
    )
}

/// A history that guards can have: each event was permitted when it
/// happened.
pub open spec fn admissible(trace: Seq<GuardEvent>) -> bool
    decreases trace.len(),
{
    trace.len() == 0 || (admissible(trace.drop_last()) && trace.last().permitted(
        net(trace.drop_last()),
    ))
}

/// The value that an event writes into a counter that holds `count`, if it
/// writes one. A counter at `u32::MAX` is stuck and takes no event, and a
/// counter at zero has no guard to take off.
pub open spec fn step(count: u32, event: GuardEvent) -> Option<u32> {
    match event {
        GuardEvent::Drop => if 0 < count < u32::MAX {
            Some((count - 1) as u32)
        } else {
            None
        },
        _ => if count < u32::MAX {
            Some((count + 1) as u32)
        } else {
            None
        },
    }
}

/// What one atomic update leaves in the counter.
pub open spec fn count_after(count: u32, event: GuardEvent) -> u32 {
    match step(count, event) {
        Some(next) => next,
        None => count,
    }
}

/// The counter of a scope after `trace`, starting from zero.
pub open spec fn replay(trace: Seq<GuardEvent>) -> u32
    decreases trace.len(),
{
    if trace.len() == 0 {
        0
    } else {
        count_after(replay(trace.drop_last()), trace.last())
    }
}

/// Guards are out when the counter is positive.
pub open spec fn outstanding(count: u32) -> bool {
    count > 0
}

/// A drop wakes the waiters when it found the counter at one.
pub open spec fn wakes(previous: u32) -> bool {
    previous == 1
}

/// The value that an event writes into a counter that holds `count`, or
/// `None` where the counter is left as it is. This is the function that the
/// atomic updates of the counter apply.
pub fn next_count(count: u32, event: GuardEvent) -> (next: Option<u32>)
    ensures
        next == step(count, event),
{
    match event {
        GuardEvent::Drop => {
            if 0 < count && count < u32::MAX {
                Some(count - 1)
            } else {
                None
            }
        },
        _ => {
            if count < u32::MAX {
                Some(count + 1)
            } else {
                None
            }
        },
    }
}

/// Whether a counter value means that guards are out.
pub fn is_outstanding(count: u32) -> (b: bool)
    ensures
        b == outstanding(count),
{
    count > 0
}

/// Whether the drop that found `previous` in the counter has to wake the
/// waiters.
pub fn is_last_release(previous: u32) -> (b: bool)
    ensures
        b == wakes(previous),
        b == (outstanding(previous) && !outstanding(count_after(previous, GuardEvent::Drop))),
{
    previous == 1
}

/// After an admissible history the counter holds the number of guards that
/// are alive, unless it is stuck at `u32::MAX`. No guard is ever alive in
/// negative numbers.
pub proof fn law_counter_is_net_or_stuck(trace: Seq<GuardEvent>)
    requires
        admissible(trace),
    ensures
        0 <= net(trace),
        replay(trace) == net(trace) || replay(trace) == u32::MAX,
    decreases trace.len(),
{
    if trace.len() > 0 {
        law_counter_is_net_or_stuck(trace.drop_last());
    }
}

/// The counter never reads zero while a guard is alive, whatever the
/// history, stuck or not.
pub proof fn law_alive_guards_are_outstanding(trace: Seq<GuardEvent>)
    requires
        admissible(trace),
        net(trace) > 0,
    ensures
        outstanding(replay(trace)),
{
    law_counter_is_net_or_stuck(trace);
}

/// After an admissible history that has not left the counter stuck, guards
/// are out exactly when more guards were handed out or cloned than
/// dropped.
pub proof fn law_outstanding_iff_net_positive(trace: Seq<GuardEvent>)
    requires
        admissible(trace),
        replay(trace) != u32::MAX,
    ensures
        replay(trace) == net(trace),
        outstanding(replay(trace)) <==> occurrences(trace, GuardEvent::Issue) + occurrences(
            trace,
            GuardEvent::Clone,
        ) > occurrences(trace, GuardEvent::Drop),
{
    law_counter_is_net_or_stuck(trace);
}

/// A counter that is stuck stays stuck, and one that is not stuck never
/// was.
pub proof fn law_stuck_for_good(trace: Seq<GuardEvent>)
    requires
        trace.len() > 0,
    ensures
        replay(trace.drop_last()) == u32::MAX ==> replay(trace) == u32::MAX,
{
}

/// In an admissible history that has not left the counter stuck, a drop
/// wakes the waiters exactly when it leaves no guard alive, and no other
/// event leaves none alive: the wake is raised each time the guards are
/// gone, and only then.
pub proof fn law_wake_iff_last_guard_dropped(trace: Seq<GuardEvent>)
    requires
        admissible(trace),
        trace.len() > 0,
        replay(trace) != u32::MAX,
    ensures
        net(trace) == 0 <==> trace.last() == GuardEvent::Drop && wakes(replay(trace.drop_last())),
{
    law_counter_is_net_or_stuck(trace);
    law_counter_is_net_or_stuck(trace.drop_last());
}

} // verus!
