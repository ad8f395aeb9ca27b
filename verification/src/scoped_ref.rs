//! The scope: a borrowed value, the count of its guards, and the decision of
//! what has to happen before it is retired.

use crate::channel::{inside_tokio_runtime, Suspension, WaitRound};
use crate::counter::{is_outstanding, outstanding, GuardEvent};
use crate::ledger::{share, Ledger, Retirement};
use crate::policy::{Backend, Policy};
use crate::scoped_ref_guard::ScopedRefGuard;
use crate::type_connector::TypeConnector;
use crate::wait::plan;
use std::sync::Arc;
use vstd::prelude::*;

verus! {

/// A scope around borrowed data.
///
/// The scope hands out guards with [`ScopedRef::new_ref`] and counts them.
/// Whoever owns the scope waits for the guards in rounds, a thread with
/// [`ScopedRef::await_round`] and a task with [`ScopedRef::suspend_round`],
/// and asks [`ScopedRef::retire`] what has to happen before the scope, and
/// with it the data, may go.
pub struct ScopedRef<'a, ConnectorType: TypeConnector> {
    data: &'a ConnectorType::Super<'a>,
    ledger: Arc<Ledger>,
    policy: Policy,
}

impl<'a, ConnectorType: TypeConnector> ScopedRef<'a, ConnectorType> {
    /// The waiters of the scope are parked on the backend of its policy.
    #[verifier::type_invariant]
    spec fn backend_matches(self) -> bool {
        self.ledger.backend() == self.policy.backend
    }

    /// The data that the scope stands in front of.
    pub closed spec fn target(&self) -> &'a ConnectorType::Super<'a> {
        self.data
    }

    /// The ledger that counts the guards of this scope.
    pub closed spec fn link(&self) -> Ledger {
        *self.ledger
    }

    /// The policy that the scope was made with.
    pub closed spec fn config(&self) -> Policy {
        self.policy
    }

    /// A scope around `data` under [`Policy::standard`], with no guard out.
    pub fn new(data: &'a ConnectorType::Super<'a>) -> (scope: Self)
        ensures
            scope.target() == data,
            scope.config() == Policy::standard(),
            scope.link().backend() == Backend::Cooperative,
    {
        Self::with_policy(data, Policy::default())
    }

    /// A scope around `data` under `policy`, with no guard out. The scope is
    /// made wherever the call is made; [`ScopedRef::try_with_policy`] looks
    /// first whether the policy can work there.
    pub fn with_policy(data: &'a ConnectorType::Super<'a>, policy: Policy) -> (scope: Self)
        ensures
            scope.target() == data,
            scope.config() == policy,
            scope.link().backend() == policy.backend,
    {
        ScopedRef { data, ledger: Arc::new(Ledger::new(policy.backend)), policy }
    }

    /// A scope around `data` under `policy`, if the policy can work where
    /// `inside_runtime` says the caller is: the cooperative backend needs a
    /// tokio runtime, the blocking backend needs nothing.
    pub fn with_policy_where(
        data: &'a ConnectorType::Super<'a>,
        policy: Policy,
        inside_runtime: bool,
    ) -> (scope: Option<Self>)
        ensures
            scope is Some <==> policy.backend == Backend::Blocking || inside_runtime,
            scope matches Some(made) ==> made.target() == data && made.config() == policy
                && made.link().backend() == policy.backend,
    {
        if policy.backend.runtime_suffices(inside_runtime) {
            Some(Self::with_policy(data, policy))
        } else {
            None
        }
    }

    /// A scope around `data` under `policy`, if the policy can work on the
    /// calling thread: under the cooperative backend there is no scope
    /// outside a tokio runtime, so that the lack is found when the scope is
    /// made and not when it is retired. Under the blocking backend there
    /// always is one.
    pub fn try_with_policy(data: &'a ConnectorType::Super<'a>, policy: Policy) -> (scope: Option<
        Self,
    >)
        ensures
            policy.backend == Backend::Blocking ==> scope is Some,
            scope matches Some(made) ==> made.target() == data && made.config() == policy
                && made.link().backend() == policy.backend,
    {
        Self::with_policy_where(data, policy, inside_tokio_runtime())
    }

    /// The policy that the scope was made with.
    pub fn policy(&self) -> (policy: Policy)
        ensures
            policy == self.config(),
    {
        self.policy
    }

    /// Hands out a guard on the data of the scope. The counter is raised, by
    /// one atomic update, before the guard exists; the call never blocks. A
    /// counter that is stuck at `u32::MAX` stays there, and the scope then
    /// has guards out for good.
    pub fn new_ref(&self) -> (guard: ScopedRefGuard<'a, ConnectorType>)
        ensures
            guard.target() == self.target(),
            guard.link() == self.link(),
    {
        let _arrival = self.ledger.enter(GuardEvent::Issue);
        ScopedRefGuard::attach(self.data, share(&self.ledger))
    }

    /// The number of guards that are out, as the counter holds it when the
    /// call reads it. Guards on other threads may come and go at any time,
    /// so nothing is said of the number.
    pub fn active_guards(&self) -> u32 {
        self.ledger.observe()
    }

    /// Whether guards are out when the call reads the counter: a snapshot
    /// that never blocks.
    pub fn has_active_guards(&self) -> bool {
        is_outstanding(self.ledger.observe())
    }

    /// One round of a wait for the guards.
    ///
    /// `timeout` is the limit of the whole wait in nanoseconds, if it has
    /// one, and `waited` the nanoseconds spent since the wait began. The
    /// round reads the counter and plans its step as [`plan`] says. On the
    /// blocking backend it then parks the calling thread as planned, so that
    /// a wait is the loop that calls `await_round` until the round is over.
    /// On the cooperative backend the round returns at once; a task waits
    /// with [`ScopedRef::suspend_round`].
    ///
    /// A wait with a limit that has gone by is over whatever the counter
    /// holds; the caller then looks at [`ScopedRef::has_active_guards`].
    pub fn await_round(&self, timeout: Option<u128>, waited: u128) -> (round: WaitRound)
        ensures
            round.step == plan(outstanding(round.observed), timeout, waited),
            round.over() <==> round.observed == 0 || (timeout matches Some(limit) && waited
                > limit),
    {
        self.ledger.round(timeout, waited)
    }

    /// Retires the scope: reads the counter and says what has to happen
    /// before the scope may go. `unwinding` says whether the calling thread
    /// is unwinding from a panic.
    pub fn retire(&self, unwinding: bool) -> (retirement: Retirement)
        ensures
            retirement.action == self.config().retirement(
                unwinding,
                outstanding(retirement.observed),
            ),
    {
        self.ledger.retire(&self.policy, unwinding)
    }

    /// One round of a task's wait for the guards.
    ///
    /// `timeout` and `waited` are those of [`ScopedRef::await_round`], and
    /// the round plans its step in the same way, but it never parks the
    /// thread. Under the cooperative backend it hands out the future of the
    /// next wake, which it made before it read the counter, so that the wake
    /// of a guard that is released after the reading is not missed. The task
    /// suspends on that future for as long as the step says and then starts
    /// the next round.
    pub fn suspend_round(&self, timeout: Option<u128>, waited: u128) -> (suspension: Suspension<
        '_,
    >)
        ensures
            suspension.round.step == plan(outstanding(suspension.round.observed), timeout, waited),
            suspension.round.over() <==> suspension.round.observed == 0 || (timeout matches Some(
                limit,
            ) && waited > limit),
            suspension.wake is Some <==> self.config().backend == Backend::Cooperative,
    {
        proof {
            use_type_invariant(self);
        }
        self.ledger.suspend_round(timeout, waited)
    }

    /// Whether the calling thread is where this scope can be waited on:
    /// anywhere under the blocking backend, and inside a tokio runtime under
    /// the cooperative one.
    pub fn runtime_ready(&self) -> (ready: bool)
        ensures
            self.config().backend == Backend::Blocking ==> ready,
    {
        proof {
            use_type_invariant(self);
        }
        self.ledger.runtime_ready()
    }
}

} // verus!
