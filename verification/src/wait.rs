//! Planning a wait for the guards of a scope.
//!
//! A wait goes in rounds. Each round looks at the counter and at the time
//! spent so far and decides with [`plan_wait`] whether the wait is over or
//! for how long the waiter may be parked before it has to look again. A
//! waiter that is woken early, for whatever reason, simply starts the next
//! round: the time limit is always measured from the start of the wait, never
//! from the start of a round.
//!
//! Time is counted in nanoseconds.

use vstd::prelude::*;

verus! {

/// What a waiter does next.
#[derive(Clone, Copy, Debug, PartialEq, Eq, Structural)]
pub enum WaitStep {
    /// The wait is over.
    Done,
    /// Park until woken.
    Park,
    /// Park until woken, but for no longer than this many nanoseconds.
    ParkFor(u128),
}

/// The nanoseconds in a second.
pub const NANOS_PER_SEC: u128 = 1_000_000_000;

/// The longest time that a [`Span`] can hold, in nanoseconds.
pub const MAX_SPAN_NANOS: u128 = 18_446_744_073_709_551_615_999_999_999;

/// A length of time in whole seconds and the nanoseconds beyond them, the
/// form in which the system's timed waits take it.
#[derive(Clone, Copy, Debug, PartialEq, Eq, Structural)]
pub struct Span {
    /// Whole seconds.
    pub secs: u64,
    /// Nanoseconds beyond the whole seconds, less than a second.
    pub subsec_nanos: u32,
}

impl Span {
    /// The nanoseconds beyond the whole seconds are less than a second.
    pub open spec fn well_formed(self) -> bool {
        self.subsec_nanos < NANOS_PER_SEC
    }

    /// The length of the span in nanoseconds.
    pub open spec fn nanos(self) -> nat {
        (self.secs * NANOS_PER_SEC + self.subsec_nanos) as nat
    }

    /// The span that is `nanos` nanoseconds long, or the longest span there
    /// is where `nanos` is beyond it.
    pub fn of_nanos(nanos: u128) -> (span: Span)
        ensures
            span.well_formed(),
            span.nanos() == if nanos <= MAX_SPAN_NANOS {
                nanos
            } else {
                MAX_SPAN_NANOS
            },
    {
        let secs: u128 = nanos / NANOS_PER_SEC;
        if secs > 0xffff_ffff_ffff_ffff {
            Span { secs: u64::MAX, subsec_nanos: 999_999_999 }
        } else {
            let rest: u128 = nanos % NANOS_PER_SEC;
            Span { secs: secs as u64, subsec_nanos: rest as u32 }
        }
    }
}

/// The step that a round takes.
///
/// Without guards the wait is over. With guards and no time limit the
/// waiter parks until woken. With guards and a limit, the wait is over once
/// more than the limit has been spent, and until then the waiter parks for
/// what is left of it.
pub open spec fn plan(outstanding: bool, timeout: Option<u128>, waited: u128) -> WaitStep {
    if !outstanding {
        WaitStep::Done
    } else {
        match timeout {
            None => WaitStep::Park,
            Some(limit) => if waited > limit {
                WaitStep::Done
            } else {
                WaitStep::ParkFor((limit - waited) as u128)
            },
        }
    }
}

/// Plans one round of a wait: `outstanding` says whether guards are out,
/// `timeout` is the limit of the whole wait, if it has one, and `waited` the
/// time spent since the wait began.
pub fn plan_wait(outstanding: bool, timeout: Option<u128>, waited: u128) -> (step: WaitStep)
    ensures
        step == plan(outstanding, timeout, waited),
{
    if !outstanding {
        return WaitStep::Done;
    }
    match timeout {
        None => WaitStep::Park,
        Some(limit) => {
            if waited > limit {
                WaitStep::Done
            } else {
                WaitStep::ParkFor(limit - waited)
            }
        },
    }
}

/// Once no guard is out, the next round ends the wait, whatever its limit
/// and however long it has lasted.
pub proof fn law_wait_ends_once_guards_are_gone(timeout: Option<u128>, waited: u128)
    ensures
        plan(false, timeout, waited) == WaitStep::Done,
{
}

/// A wait without a time limit is over exactly when no guard is out: it
/// never ends early.
pub proof fn law_untimed_wait_ends_with_guards(outstanding: bool, waited: u128)
    ensures
        plan(outstanding, None, waited) == WaitStep::Done <==> !outstanding,
        outstanding ==> plan(outstanding, None, waited) == WaitStep::Park,
{
}

/// A wait with a time limit is over exactly when no guard is out or more
/// than the limit has been spent. Until then the waiter is parked for
/// exactly what is left of the limit, so that it is never parked beyond it.
pub proof fn law_timed_wait_ends_at_limit(outstanding: bool, limit: u128, waited: u128)
    ensures
        plan(outstanding, Some(limit), waited) == WaitStep::Done <==> !outstanding || waited
            > limit,
        plan(outstanding, Some(limit), waited) != WaitStep::Park,
        forall|span: u128|
            plan(outstanding, Some(limit), waited) == WaitStep::ParkFor(span) ==> waited + span
                == limit,
{
}

} // verus!
