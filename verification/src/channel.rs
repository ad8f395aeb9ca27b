//! The wait primitive of a scope: where waiters are parked and woken.
//!
//! A [`WaitPrimitive`] is either a lock with a condition variable, on which a
//! thread blocks, or a `tokio::sync::Notify`, on which a task suspends. The
//! behaviour of these outside types is taken on trust here: each function of
//! this module that is marked `external_body`, and each
//! `assume_specification`, claims what its documentation says and nothing
//! more.

use crate::counter::{is_outstanding, outstanding};
use crate::ledger::Tally;
use crate::policy::Backend;
use crate::wait::{plan, plan_wait, Span, WaitStep};
use std::sync::Condvar;
use std::sync::Mutex;
use std::sync::MutexGuard;
use std::time::Duration;
use tokio::sync::futures::Notified;
use tokio::sync::Notify;
use vstd::prelude::*;

verus! {

/// `std::sync::Mutex`, opaque to the verifier.
#[verifier::external_type_specification]
#[verifier::external_body]
#[verifier::reject_recursive_types(T)]
pub struct ExMutex<T: ?Sized>(std::sync::Mutex<T>);

/// `std::sync::MutexGuard`, opaque to the verifier.
#[verifier::external_type_specification]
#[verifier::external_body]
#[verifier::reject_recursive_types(T)]
pub struct ExMutexGuard<'a, T: ?Sized + 'a>(std::sync::MutexGuard<'a, T>);

/// `std::sync::Condvar`, opaque to the verifier.
#[verifier::external_type_specification]
#[verifier::external_body]
pub struct ExCondvar(std::sync::Condvar);

/// `tokio::sync::Notify`, opaque to the verifier.
#[verifier::external_type_specification]
#[verifier::external_body]
pub struct ExNotify(tokio::sync::Notify);

/// `tokio::sync::futures::Notified`, the future of one wake, opaque to the
/// verifier.
#[verifier::external_type_specification]
#[verifier::external_body]
pub struct ExNotified<'a>(tokio::sync::futures::Notified<'a>);

/// `Mutex::new` makes a lock that is not held. Nothing is claimed of it.
pub assume_specification<T>[ std::sync::Mutex::<T>::new ](t: T) -> std::sync::Mutex<T>;

/// `Condvar::new` makes a condition variable without waiters. Nothing is
/// claimed of it.
pub assume_specification[ std::sync::Condvar::new ]() -> std::sync::Condvar;

/// `Notify::new` makes a notifier without a stored permit. Nothing is
/// claimed of it.
pub assume_specification[ tokio::sync::Notify::new ]() -> tokio::sync::Notify;

/// `Condvar::notify_all` wakes every thread that is blocked on the condition
/// variable. It returns nothing, and nothing is claimed of it.
pub assume_specification[ std::sync::Condvar::notify_all ](signal: &std::sync::Condvar);

/// `Notify::notify_waiters` wakes every task that is registered on the
/// notifier, and stores no permit for tasks that register later. It returns
/// nothing, and nothing is claimed of it: it calls the wakers of the tasks,
/// and unwinds where one of them does.
pub assume_specification[ tokio::sync::Notify::notify_waiters ](notify: &tokio::sync::Notify);

/// Takes the lock with `Mutex::lock`. A lock that a panicking thread left
/// poisoned is taken all the same: it guards no data. The caller must not
/// hold the lock already, which nothing here can check; this module takes
/// the lock only in functions that call nothing which takes it again, and
/// that release it before they return.
#[verifier::external_body]
fn acquire<'m>(lock: &'m Mutex<()>) -> (held: MutexGuard<'m, ()>) {
    match lock.lock() {
        Ok(held) => held,
        Err(poisoned) => poisoned.into_inner(),
    }
}

/// Makes the future of the notifier's next wake, with `Notify::notified`.
/// tokio documents that the future receives the wakes of `notify_waiters`
/// from the moment it is made, whether or not it has been polled. Nothing is
/// claimed of the future here.
#[verifier::external_body]
fn enlist<'n>(notify: &'n Notify) -> (wake: Notified<'n>) {
    notify.notified()
}

/// Blocks on the condition variable with `Condvar::wait` until the thread is
/// woken, by a notification or for no reason at all, and hands the lock
/// back. Nothing is claimed of why or when it returns. `held` must be a hold
/// on the lock that stands beside `signal` in its primitive: the system may
/// panic where one condition variable is used with two locks.
#[verifier::external_body]
fn park<'m>(signal: &Condvar, held: MutexGuard<'m, ()>) -> (back: MutexGuard<'m, ()>) {
    match signal.wait(held) {
        Ok(back) => back,
        Err(poisoned) => poisoned.into_inner(),
    }
}

/// The span as a `Duration`, by `Duration::new`, which panics where the
/// nanoseconds carry over into seconds that overflow: `requires` leaves
/// that out. Nothing is claimed of the result, which is only handed on.
#[verifier::external_body]
fn duration_of(span: Span) -> (limit: Duration)
    requires
        span.well_formed(),
{
    Duration::new(span.secs, span.subsec_nanos)
}

/// Blocks on the condition variable with `Condvar::wait_timeout` until the
/// thread is woken or about `limit` has gone by, and hands the lock back.
/// Nothing is claimed of why or when it returns. `held` must be a hold on
/// the lock that stands beside `signal` in its primitive.
#[verifier::external_body]
fn park_for<'m>(signal: &Condvar, held: MutexGuard<'m, ()>, limit: Duration) -> (back: MutexGuard<
    'm,
    (),
>) {
    match signal.wait_timeout(held, limit) {
        Ok((back, _)) => back,
        Err(poisoned) => poisoned.into_inner().0,
    }
}

/// Whether the calling thread is inside a tokio runtime, by
/// `Handle::try_current`. Nothing is claimed of the answer: it depends on
/// where the call is made.
#[verifier::external_body]
pub(crate) fn inside_tokio_runtime() -> (inside: bool) {
    match tokio::runtime::Handle::try_current() {
        Ok(_) => true,
        Err(_) => false,
    }
}

/// One round of a wait: what the counter held when the round looked at it,
/// and what the round did about it.
#[derive(Clone, Copy, Debug, PartialEq, Eq, Structural)]
pub struct WaitRound {
    /// The counter as the round found it.
    pub observed: u32,
    /// The step that the round took.
    pub step: WaitStep,
}

impl WaitRound {
    /// Whether the round ended the wait.
    pub open spec fn over(self) -> bool {
        self.step == WaitStep::Done
    }

    /// Whether the round ended the wait.
    pub fn is_over(&self) -> (over: bool)
        ensures
            over == self.over(),
    {
        self.step == WaitStep::Done
    }
}

/// One round of a task's wait: the round, and the wake to suspend on.
pub struct Suspension<'s> {
    /// What the round found and planned.
    pub round: WaitRound,
    /// The future of the next wake, made before the round read the counter.
    /// There is one exactly on the cooperative backend.
    pub wake: Option<Notified<'s>>,
}

/// What a waiter holds from the beginning of a round to its end, and what
/// it must show to read the counter in the round: this module has no other
/// way to read it.
pub(crate) enum Ticket<'p> {
    /// The lock of the blocking backend.
    Held(MutexGuard<'p, ()>),
    /// The future of the next wake of the cooperative backend.
    Enlisted(Notified<'p>),
}

impl<'p> Ticket<'p> {
    /// The backend that the ticket is for.
    pub(crate) open spec fn backend(&self) -> Backend {
        match self {
            Ticket::Held(_) => Backend::Blocking,
            Ticket::Enlisted(_) => Backend::Cooperative,
        }
    }

    /// Ends a round without parking: lets go of the lock, or hands out the
    /// future to suspend on.
    pub(crate) fn into_wake(self) -> (wake: Option<Notified<'p>>)
        ensures
            wake is Some <==> self.backend() == Backend::Cooperative,
    {
        match self {
            Ticket::Held(_) => None,
            Ticket::Enlisted(wake) => Some(wake),
        }
    }
}

/// Where the waiters of one scope are parked.
pub(crate) enum WaitPrimitive {
    /// A lock and a condition variable, for threads that block.
    Blocking {
        /// Serialises the check of the counter with parking and waking.
        lock: Mutex<()>,
        /// Where waiting threads are parked.
        signal: Condvar,
    },
    /// An async notifier, for tasks that suspend.
    Cooperative {
        /// Where waiting tasks are registered.
        notify: Notify,
    },
}

impl WaitPrimitive {
    /// The backend that the primitive belongs to.
    pub(crate) open spec fn backend(&self) -> Backend {
        match self {
            WaitPrimitive::Blocking { .. } => Backend::Blocking,
            WaitPrimitive::Cooperative { .. } => Backend::Cooperative,
        }
    }

    /// A primitive of the given backend, with nobody waiting.
    pub(crate) fn new(backend: Backend) -> (primitive: WaitPrimitive)
        ensures
            primitive.backend() == backend,
    {
        match backend {
            Backend::Blocking => WaitPrimitive::Blocking {
                lock: Mutex::new(()),
                signal: Condvar::new(),
            },
            Backend::Cooperative => WaitPrimitive::Cooperative { notify: Notify::new() },
        }
    }

    /// Begins a round: takes the lock, or makes the future of the next
    /// wake.
    pub(crate) fn begin(&self) -> (ticket: Ticket<'_>)
        ensures
            ticket.backend() == self.backend(),
    {
        match self {
            WaitPrimitive::Blocking { lock, .. } => Ticket::Held(acquire(lock)),
            WaitPrimitive::Cooperative { notify } => Ticket::Enlisted(enlist(notify)),
        }
    }

    /// Ends a round of a thread: parks the thread as `step` says, on the
    /// blocking backend, and lets go of the ticket. `ticket` is the one that
    /// [`WaitPrimitive::begin`] gave on this primitive.
    pub(crate) fn sleep(&self, ticket: Ticket<'_>, step: WaitStep)
        requires
            ticket.backend() == self.backend(),
    {
        match ticket {
            Ticket::Held(held) => match self {
                WaitPrimitive::Blocking { signal, .. } => match step {
                    WaitStep::Done => {},
                    WaitStep::Park => {
                        let _back = park(signal, held);
                    },
                    WaitStep::ParkFor(nanos) => {
                        let _back = park_for(signal, held, duration_of(Span::of_nanos(nanos)));
                    },
                },
                WaitPrimitive::Cooperative { .. } => {},
            },
            Ticket::Enlisted(_) => {},
        }
    }

    /// Wakes everybody who is parked on the primitive.
    ///
    /// On the blocking backend the lock is held while the condition variable
    /// is notified. A waiter reads the counter and parks under the same
    /// lock, so the wake cannot fall between its reading and its parking.
    pub(crate) fn wake_all(&self) {
        match self {
            WaitPrimitive::Blocking { lock, signal } => {
                let _held = acquire(lock);
                signal.notify_all();
            },
            WaitPrimitive::Cooperative { notify } => {
                notify.notify_waiters();
            },
        }
    }

    /// One round of a wait for the guards that `count` counts.
    ///
    /// The round begins, reads the counter, and plans its step from what it
    /// found, from the limit of the whole wait and from the time spent so
    /// far. On the blocking backend it reads the counter under the lock and,
    /// unless the wait is over, parks the thread as planned before it
    /// returns. On the cooperative backend it only reads and plans: a task
    /// waits with [`WaitPrimitive::suspend_round`].
    ///
    /// What the counter holds is up to the threads that own guards, so
    /// nothing is said of `observed`. The round ends the wait exactly when
    /// it finds no guard out or the limit gone by.
    pub(crate) fn round(&self, count: &Tally, timeout: Option<u128>, waited: u128) -> (round:
        WaitRound)
        ensures
            round.step == plan(outstanding(round.observed), timeout, waited),
            round.over() <==> round.observed == 0 || (timeout matches Some(limit) && waited
                > limit),
    {
        let ticket = self.begin();
        let observed = count.read_in_round(&ticket);
        let step = plan_wait(is_outstanding(observed), timeout, waited);
        self.sleep(ticket, step);
        WaitRound { observed, step }
    }

    /// One round of a task's wait for the guards that `count` counts.
    ///
    /// On the cooperative backend the round first makes the future of the
    /// next wake, then reads the counter and plans its step. The order
    /// matters: a release that takes the counter to zero after the round has
    /// read it raises its wake after the future was made, so the future has
    /// it. The round never parks the thread; the task suspends on the
    /// future as the step says. On the blocking backend there is nothing to
    /// suspend on: the round reads under the lock, plans, and lets go.
    pub(crate) fn suspend_round<'s>(
        &'s self,
        count: &Tally,
        timeout: Option<u128>,
        waited: u128,
    ) -> (suspension: Suspension<'s>)
        ensures
            suspension.round.step == plan(outstanding(suspension.round.observed), timeout, waited),
            suspension.wake is Some <==> self.backend() == Backend::Cooperative,
    {
        let ticket = self.begin();
        let observed = count.read_in_round(&ticket);
        let step = plan_wait(is_outstanding(observed), timeout, waited);
        Suspension { round: WaitRound { observed, step }, wake: ticket.into_wake() }
    }

    /// Whether the thread that calls is where the primitive can be waited
    /// on: anywhere for the blocking backend, and inside a tokio runtime for
    /// the cooperative one. For the blocking backend the answer is always
    /// `true`.
    pub(crate) fn runtime_ready(&self) -> (ready: bool)
        ensures
            self.backend() == Backend::Blocking ==> ready,
    {
        match self {
            WaitPrimitive::Blocking { .. } => true,
            WaitPrimitive::Cooperative { .. } => Backend::Cooperative.runtime_suffices(
                inside_tokio_runtime(),
            ),
        }
    }
}

} // verus!
