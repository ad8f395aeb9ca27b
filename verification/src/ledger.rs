//! What a scope shares with its guards: the counter and the wait primitive.

use crate::channel::{Suspension, Ticket, WaitPrimitive, WaitRound};
use crate::counter::{
    is_last_release, is_outstanding, next_count, outstanding, step, wakes, GuardEvent,
};
use crate::policy::{Backend, Policy, RetireAction};
use crate::wait::plan;
use std::sync::atomic::AtomicU32;
use std::sync::atomic::Ordering;
use std::sync::Arc;
use vstd::prelude::*;

verus! {

/// The counter of a scope together with the place where its waiters are
/// parked. A scope and all of its guards hold the same ledger.
pub struct Ledger {
    count: Tally,
    channel: WaitPrimitive,
}

/// The counter of a scope. Outside this module it can be read in one way
/// only: in a round, against the ticket of the round.
pub(crate) struct Tally {
    value: AtomicU32,
}

/// What retiring a scope found and decided.
#[derive(Clone, Copy, Debug, PartialEq, Eq, Structural)]
pub struct Retirement {
    /// The counter as the retirement found it.
    pub observed: u32,
    /// What the retirement asks for.
    pub action: RetireAction,
}

/// What handing out or cloning a guard found and did.
#[derive(Clone, Copy, Debug, PartialEq, Eq, Structural)]
pub struct Arrival {
    /// The counter as the call found it.
    pub previous: u32,
    /// Whether the call added the guard to the counter. It does not where
    /// the counter is stuck at `u32::MAX`.
    pub counted: bool,
}

/// What the release of a guard found and did.
#[derive(Clone, Copy, Debug, PartialEq, Eq, Structural)]
pub struct Departure {
    /// The counter as the release found it, before it took the guard off.
    pub previous: u32,
    /// Whether the release took the guard off the counter. It does not where
    /// the counter is stuck at `u32::MAX`.
    pub counted: bool,
    /// Whether the release woke the waiters.
    pub woke: bool,
}

/// Applies [`next_count`] to the counter as one atomic update, with
/// `AtomicU32::fetch_update`. The system documents that the call returns
/// `Ok` of the value it replaced where the function gave `Some`, and `Err` of
/// the value it found where the function gave `None`; the contract says that
/// and no more. The value itself is up to the other threads.
#[verifier::external_body]
fn update(count: &AtomicU32, event: GuardEvent) -> (outcome: Result<u32, u32>)
    ensures
        outcome matches Ok(previous) ==> step(previous, event) is Some,
        outcome matches Err(previous) ==> step(previous, event) is None,
{
    count.fetch_update(Ordering::AcqRel, Ordering::Acquire, |held| next_count(held, event))
}

/// Another handle on the same ledger, by `Arc::clone`: the copy points at
/// the ledger that `ledger` points at.
#[verifier::external_body]
pub(crate) fn share(ledger: &Arc<Ledger>) -> (copy: Arc<Ledger>)
    ensures
        *copy == **ledger,
{
    Arc::clone(ledger)
}

impl Tally {
    /// A counter at zero.
    fn new() -> Tally {
        Tally { value: AtomicU32::new(0) }
    }

    /// The counter as it is when the call reads it, outside any round.
    fn snapshot(&self) -> u32 {
        self.value.load(Ordering::Acquire)
    }

    /// Reads the counter in a round. The reading asks for the ticket of the
    /// round: the counter is read after the lock was taken, or after the
    /// future of the next wake was made, and in no other order.
    pub(crate) fn read_in_round(&self, ticket: &Ticket<'_>) -> u32 {
        self.value.load(Ordering::Acquire)
    }

    /// Puts one event to the counter, as one atomic update. `Ok` holds what
    /// the update replaced, `Err` what it found and left.
    fn record(&self, event: GuardEvent) -> (outcome: Result<u32, u32>)
        ensures
            outcome matches Ok(previous) ==> step(previous, event) is Some,
            outcome matches Err(previous) ==> step(previous, event) is None,
    {
        update(&self.value, event)
    }
}

impl Ledger {
    /// The backend that waiters of this ledger are parked on.
    pub closed spec fn backend(&self) -> Backend {
        self.channel.backend()
    }

    /// A ledger without guards and without waiters: its counter is zero.
    pub(crate) fn new(backend: Backend) -> (ledger: Ledger)
        ensures
            ledger.backend() == backend,
    {
        Ledger { count: Tally::new(), channel: WaitPrimitive::new(backend) }
    }

    /// The counter as it is when the call reads it.
    pub(crate) fn observe(&self) -> u32 {
        self.count.snapshot()
    }

    /// Counts a guard that is handed out or cloned, by one atomic update.
    /// A counter that is stuck at `u32::MAX` is left there.
    pub(crate) fn enter(&self, event: GuardEvent) -> (arrival: Arrival)
        requires
            event != GuardEvent::Drop,
        ensures
            arrival.counted == (arrival.previous < u32::MAX),
    {
        match self.count.record(event) {
            Ok(previous) => Arrival { previous, counted: true },
            Err(previous) => Arrival { previous, counted: false },
        }
    }

    /// Takes a guard off the counter, by one atomic update, and, if that
    /// took the counter from 1 to 0, wakes everybody who waits. No other call
    /// of this crate raises that wake. A counter that is stuck at `u32::MAX`
    /// is left there.
    pub(crate) fn leave(&self) -> (departure: Departure)
        ensures
            departure.counted == (0 < departure.previous < u32::MAX),
            departure.woke == wakes(departure.previous),
    {
        match self.count.record(GuardEvent::Drop) {
            Ok(previous) => {
                let woke = is_last_release(previous);
                if woke {
                    self.channel.wake_all();
                }
                Departure { previous, counted: true, woke }
            },
            Err(previous) => Departure { previous, counted: false, woke: false },
        }
    }

    /// One round of a wait for the guards of this ledger: see
    /// [`WaitPrimitive::round`].
    pub(crate) fn round(&self, timeout: Option<u128>, waited: u128) -> (round: WaitRound)
        ensures
            round.step == plan(outstanding(round.observed), timeout, waited),
            round.over() <==> round.observed == 0 || (timeout matches Some(limit) && waited
                > limit),
    {
        self.channel.round(&self.count, timeout, waited)
    }

    /// Reads the counter and asks `policy` what retiring has to do.
    pub(crate) fn retire(&self, policy: &Policy, unwinding: bool) -> (retirement: Retirement)
        ensures
            retirement.action == policy.retirement(unwinding, outstanding(retirement.observed)),
    {
        let observed = self.observe();
        Retirement { observed, action: policy.on_retire(unwinding, is_outstanding(observed)) }
    }

    /// One round of a task's wait for the guards of this ledger: see
    /// [`WaitPrimitive::suspend_round`].
    pub(crate) fn suspend_round(&self, timeout: Option<u128>, waited: u128) -> (suspension:
        Suspension<'_>)
        ensures
            suspension.round.step == plan(outstanding(suspension.round.observed), timeout, waited),
            suspension.wake is Some <==> self.backend() == Backend::Cooperative,
    {
        self.channel.suspend_round(&self.count, timeout, waited)
    }

    /// Whether the calling thread is where this ledger can be waited on: see
    /// [`WaitPrimitive::runtime_ready`].
    pub(crate) fn runtime_ready(&self) -> (ready: bool)
        ensures
            self.backend() == Backend::Blocking ==> ready,
    {
        self.channel.runtime_ready()
    }
}

} // verus!
