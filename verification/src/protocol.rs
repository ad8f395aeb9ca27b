//! Why no wake is lost.
//!
//! A waiter begins a round, reads the counter, and, if it found guards out,
//! goes to sleep until it is woken. A thread that releases a guard takes one
//! off the counter and, if it found the counter at 1, wakes whoever sleeps.
//! The danger is the waiter that goes to sleep on a reading that a release
//! has overtaken: if the wake came before it slept, it would sleep with
//! nobody left to wake it.
//!
//! The two backends avert the danger in different ways.
//!
//! - On the blocking backend the waiter takes the lock before it reads the
//!   counter, and parking on the condition variable lets go of the lock at
//!   the very moment the thread is parked. The release takes the lock before
//!   it raises the wake. So the wake cannot fall between the reading and the
//!   parking.
//! - On the cooperative backend the waiter makes the future of the next wake
//!   before it reads the counter, and the future has every wake that is
//!   raised after it was made. So a wake that falls between the reading and
//!   the suspension is kept for the waiter.
//!
//! In the code the order is kept by a ticket: a round begins by taking the
//! lock or making the future, and the one function that reads the counter in
//! a round asks for what the beginning gave.
//!
//! This module writes both down as one transition system, with a [`Step`]
//! for each atomic action of [`ScopedRef::await_round`], of
//! [`ScopedRef::suspend_round`] and of the release of a guard, and proves
//! that the danger never comes true: in every world that can be reached, a
//! waiter that depends on a wake while the counter is zero has one on its
//! way. So once the last guard is released and its release has run to the
//! end, no waiter sleeps for good, and a wait without a limit is over within
//! five further steps of the waiter. The one exception is a counter that is
//! stuck at `u32::MAX`, which keeps its waiters for good, as it is meant to.
//!
//! What the proof relies on is what the system and tokio promise of their
//! primitives: the atomic operations on the counter happen one after
//! another, the lock is held by one thread at a time, parking lets go of the
//! lock without a gap, a wake reaches every thread that is parked when it is
//! raised, and the future of a wake has every wake that is raised after it
//! was made.
//!
//! [`ScopedRef::await_round`]: crate::ScopedRef::await_round
//! [`ScopedRef::suspend_round`]: crate::ScopedRef::suspend_round

use crate::counter::{count_after, outstanding, wakes, GuardEvent};
use crate::policy::Backend;
use crate::wait::{plan, WaitStep};
use vstd::prelude::*;

verus! {

/// Where a thread that owns, or owned, one guard stands.
pub enum Holder {
    /// It holds its guard.
    Holding,
    /// It has taken the guard off the counter, where it found `previous`,
    /// and has not yet acted on what it found.
    Released { previous: u32 },
    /// It found the counter at 1 and holds the lock, about to raise the
    /// wake. Only on the blocking backend.
    Waking,
    /// It has raised the wake and still holds the lock. Only on the
    /// blocking backend.
    Notified,
    /// It is done with its guard.
    Gone,
}

/// Where the waiter stands.
pub enum Waiter {
    /// Between two rounds: it holds nothing.
    Idle,
    /// It has begun a round, when `since` wakes had been raised: it holds
    /// the lock, or it has made the future of the next wake.
    Ready { since: nat },
    /// It has read `seen` from the counter.
    Read { seen: u32, since: nat },
    /// It sleeps: parked on the condition variable, without the lock, or
    /// suspended on its future.
    Asleep { since: nat },
    /// Its wait is over.
    Done,
}

/// Who holds the lock of the blocking backend.
pub enum LockState {
    /// Nobody.
    Free,
    /// The waiter.
    Waiter,
    /// The holder with this index.
    Holder(int),
}

/// One scope as its threads see it.
pub struct World {
    /// The backend of the scope.
    pub backend: Backend,
    /// The counter.
    pub count: u32,
    /// The lock of the wait primitive.
    pub lock: LockState,
    /// How many wakes have been raised.
    pub raised: nat,
    /// The waiter.
    pub waiter: Waiter,
    /// The threads of the guards, in the order in which the guards were made.
    pub holders: Seq<Holder>,
}

/// One atomic action of one thread.
pub enum Step {
    /// The scope hands out a guard.
    Issue,
    /// The holder with this index clones its guard.
    Clone(int),
    /// The holder with this index takes its guard off the counter.
    Release(int),
    /// The holder with this index, which did not find the counter at 1,
    /// goes without a wake.
    Leave(int),
    /// The holder with this index, which found the counter at 1, takes the
    /// lock of the blocking backend.
    Lock(int),
    /// The holder with this index, which found the counter at 1, raises the
    /// wake: under the lock on the blocking backend, without one on the
    /// cooperative backend.
    Notify(int),
    /// The holder with this index lets go of the lock.
    Unlock(int),
    /// The waiter begins a round: it takes the lock, or makes the future of
    /// the next wake.
    Begin,
    /// The waiter reads the counter.
    Observe,
    /// The waiter acts on what it read, in a wait with this limit that has
    /// lasted this long: it ends the wait or goes to sleep.
    Decide { timeout: Option<u128>, waited: u128 },
    /// The sleeping waiter comes back: its future has a wake, its time is
    /// up, or the system woke it for no reason.
    Stir,
}

/// The number of holders that hold their guard.
pub open spec fn live(holders: Seq<Holder>) -> nat
    decreases holders.len(),
{
    if holders.len() == 0 {
        0
    } else {
        live(holders.drop_last()) + if holders.last() is Holding {
            1nat
        } else {
            0nat
        }
    }
}

impl Waiter {
    /// The number of wakes that had been raised when the round began, for a
    /// waiter that is in a round or asleep.
    pub open spec fn began(self) -> nat {
        match self {
            Waiter::Ready { since } => since,
            Waiter::Read { since, .. } => since,
            Waiter::Asleep { since } => since,
            _ => 0,
        }
    }

    /// Whether the waiter sleeps, or is about to go to sleep on what it
    /// read.
    pub open spec fn sleeps_or_will(self) -> bool {
        self is Asleep || (self matches Waiter::Read { seen, .. } && outstanding(seen))
    }
}

impl World {
    /// A scope that has just been made.
    pub open spec fn start(backend: Backend) -> World {
        World {
            backend,
            count: 0,
            lock: LockState::Free,
            raised: 0,
            waiter: Waiter::Idle,
            holders: Seq::empty(),
        }
    }

    /// Whether `i` is the index of a holder.
    pub open spec fn has(self, i: int) -> bool {
        0 <= i < self.holders.len()
    }

    /// Whether the holder with index `i` found the counter at 1 and has not
    /// acted on it yet.
    pub open spec fn owes_wake(self, i: int) -> bool {
        self.has(i) && (self.holders[i] matches Holder::Released { previous } && wakes(previous))
    }

    /// Whether a thread can take `step` in this world.
    pub open spec fn enabled(self, step: Step) -> bool {
        match step {
            Step::Issue => true,
            Step::Clone(i) => self.has(i) && self.holders[i] is Holding,
            Step::Release(i) => self.has(i) && self.holders[i] is Holding,
            Step::Leave(i) => self.has(i) && (self.holders[i] matches Holder::Released {
                previous,
            } && !wakes(previous)),
            Step::Lock(i) => self.backend == Backend::Blocking && self.owes_wake(i)
                && self.lock is Free,
            Step::Notify(i) => match self.backend {
                Backend::Blocking => self.has(i) && self.holders[i] is Waking,
                Backend::Cooperative => self.owes_wake(i),
            },
            Step::Unlock(i) => self.has(i) && self.holders[i] is Notified,
            Step::Begin => self.waiter is Idle && (self.backend == Backend::Blocking
                ==> self.lock is Free),
            Step::Observe => self.waiter is Ready,
            Step::Decide { .. } => self.waiter is Read,
            Step::Stir => self.waiter is Asleep,
        }
    }

    /// The world after `step`.
    pub open spec fn after(self, step: Step) -> World {
        match step {
            Step::Issue => World {
                count: count_after(self.count, GuardEvent::Issue),
                holders: self.holders.push(Holder::Holding),
                ..self
            },
            Step::Clone(i) => World {
                count: count_after(self.count, GuardEvent::Clone),
                holders: self.holders.push(Holder::Holding),
                ..self
            },
            Step::Release(i) => World {
                count: count_after(self.count, GuardEvent::Drop),
                holders: self.holders.update(i, Holder::Released { previous: self.count }),
                ..self
            },
            Step::Leave(i) => World { holders: self.holders.update(i, Holder::Gone), ..self },
            Step::Lock(i) => World {
                lock: LockState::Holder(i),
                holders: self.holders.update(i, Holder::Waking),
                ..self
            },
            Step::Notify(i) => match self.backend {
                Backend::Blocking => World {
                    raised: self.raised + 1,
                    waiter: if self.waiter is Asleep {
                        Waiter::Idle
                    } else {
                        self.waiter
                    },
                    holders: self.holders.update(i, Holder::Notified),
                    ..self
                },
                Backend::Cooperative => World {
                    raised: self.raised + 1,
                    holders: self.holders.update(i, Holder::Gone),
                    ..self
                },
            },
            Step::Unlock(i) => World {
                lock: LockState::Free,
                holders: self.holders.update(i, Holder::Gone),
                ..self
            },
            Step::Begin => World {
                lock: if self.backend == Backend::Blocking {
                    LockState::Waiter
                } else {
                    self.lock
                },
                waiter: Waiter::Ready { since: self.raised },
                ..self
            },
            Step::Observe => World {
                waiter: Waiter::Read { seen: self.count, since: self.waiter.began() },
                ..self
            },
            Step::Decide { timeout, waited } => World {
                lock: LockState::Free,
                waiter: if plan(outstanding(self.waiter->seen), timeout, waited)
                    == WaitStep::Done {
                    Waiter::Done
                } else {
                    Waiter::Asleep { since: self.waiter.began() }
                },
                ..self
            },
            Step::Stir => World { waiter: Waiter::Idle, ..self },
        }
    }

    /// Whether the waiter depends on a wake that is yet to be raised: it
    /// sleeps, or is about to, and, on the cooperative backend, no wake has
    /// been raised since it made its future.
    pub open spec fn waiter_depends_on_a_wake(self) -> bool {
        self.waiter.sleeps_or_will() && (self.backend == Backend::Cooperative
            ==> self.waiter.began() == self.raised)
    }

    /// Whether a wake is on its way: some holder found the counter at 1 and
    /// has not raised its wake yet.
    pub open spec fn wake_on_its_way(self) -> bool {
        exists|i: int|
            self.has(i) && (#[trigger] self.holders[i] == Holder::Released { previous: 1 }
                || self.holders[i] is Waking)
    }

    /// Whether every guard that was ever made has been released and its
    /// release has run to the end.
    pub open spec fn settled(self) -> bool {
        forall|i: int| self.has(i) ==> #[trigger] self.holders[i] is Gone
    }

    /// What holds of every world that can be reached from the start.
    ///
    /// The counter is the number of guards that are held, unless it is
    /// stuck at `u32::MAX`. The lock is held
    /// by the thread that is where only the owner of the lock can be, and by
    /// nobody on the cooperative backend. No round began after more wakes
    /// than have been raised. And a waiter that depends on a wake while the
    /// counter is zero has one on its way.
    pub open spec fn sound(self) -> bool {
        &&& self.count == live(self.holders) || self.count == u32::MAX
        &&& self.lock is Waiter <==> self.backend == Backend::Blocking && (self.waiter is Ready
            || self.waiter is Read)
        &&& self.lock matches LockState::Holder(i) ==> self.has(i)
        &&& forall|i: int|
            self.has(i) ==> ((#[trigger] self.holders[i] is Waking || self.holders[i] is Notified)
                <==> self.lock == LockState::Holder(i))
        &&& self.backend == Backend::Cooperative ==> self.lock is Free
        &&& self.waiter.began() <= self.raised
        &&& self.count == 0 && self.waiter_depends_on_a_wake() ==> self.wake_on_its_way()
    }

    /// The step that the waiter takes next in a wait without a limit.
    pub open spec fn waiter_step(self) -> Step {
        match self.waiter {
            Waiter::Idle => Step::Begin,
            Waiter::Ready { .. } => Step::Observe,
            Waiter::Asleep { .. } => Step::Stir,
            _ => Step::Decide { timeout: None, waited: 0 },
        }
    }

    /// Whether the waiter, left to run alone in a wait without a limit, is
    /// done within `steps` steps, each of which it can take.
    pub open spec fn waiter_done_within(self, steps: nat) -> bool
        decreases steps,
    {
        self.waiter is Done || (steps > 0 && self.enabled(self.waiter_step()) && self.after(
            self.waiter_step(),
        ).waiter_done_within((steps - 1) as nat))
    }
}

/// Adding a holder adds one to the guards that are held if it holds one.
proof fn lemma_live_push(holders: Seq<Holder>, holder: Holder)
    ensures
        live(holders.push(holder)) == live(holders) + if holder is Holding {
            1nat
        } else {
            0nat
        },
{
    assert(holders.push(holder).drop_last() =~= holders);
}

/// Moving one holder on changes the guards that are held by that holder's
/// guard alone.
proof fn lemma_live_update(holders: Seq<Holder>, i: int, holder: Holder)
    requires
        0 <= i < holders.len(),
    ensures
        live(holders.update(i, holder)) + (if holders[i] is Holding {
            1nat
        } else {
            0nat
        }) == live(holders) + if holder is Holding {
            1nat
        } else {
            0nat
        },
    decreases holders.len(),
{
    let moved = holders.update(i, holder);
    if i == holders.len() - 1 {
        assert(moved.drop_last() =~= holders.drop_last());
    } else {
        assert(moved.drop_last() =~= holders.drop_last().update(i, holder));
        lemma_live_update(holders.drop_last(), i, holder);
    }
}

/// While a guard is held, the guards that are held are not zero.
proof fn lemma_live_positive(holders: Seq<Holder>, i: int)
    requires
        0 <= i < holders.len(),
        holders[i] is Holding,
    ensures
        live(holders) > 0,
    decreases holders.len(),
{
    if i < holders.len() - 1 {
        lemma_live_positive(holders.drop_last(), i);
    }
}

/// When every holder is gone, no guard is held.
proof fn lemma_live_settled(holders: Seq<Holder>)
    requires
        forall|i: int| 0 <= i < holders.len() ==> #[trigger] holders[i] is Gone,
    ensures
        live(holders) == 0,
    decreases holders.len(),
{
    if holders.len() > 0 {
        lemma_live_settled(holders.drop_last());
    }
}

/// A step that moves the holder `i` on and leaves the lock as it is keeps
/// the lock with the thread that had it, as long as `i` neither had nor gets
/// it.
proof fn lemma_lock_kept(world: World, next: World, i: int, holder: Holder)
    requires
        world.sound(),
        world.has(i),
        !(world.holders[i] is Waking || world.holders[i] is Notified),
        !(holder is Waking || holder is Notified),
        next.holders == world.holders.update(i, holder),
        next.lock == world.lock,
    ensures
        forall|k: int|
            next.has(k) ==> ((#[trigger] next.holders[k] is Waking || next.holders[k] is Notified)
                <==> next.lock == LockState::Holder(k)),
{
    assert forall|k: int| next.has(k) implies ((#[trigger] next.holders[k] is Waking
        || next.holders[k] is Notified) <==> next.lock == LockState::Holder(k)) by {
        if k != i {
            assert(next.holders[k] == world.holders[k]);
        }
    }
}

/// A step that moves the holder `i` on, from a place where it owed no wake,
/// leaves every wake that was on its way where it was.
proof fn lemma_wake_kept(world: World, next: World, i: int, holder: Holder)
    requires
        world.has(i),
        world.wake_on_its_way(),
        !(world.holders[i] == Holder::Released { previous: 1 } || world.holders[i] is Waking),
        next.holders == world.holders.update(i, holder),
    ensures
        next.wake_on_its_way(),
{
    let k = choose|k: int|
        world.has(k) && (#[trigger] world.holders[k] == Holder::Released { previous: 1 }
            || world.holders[k] is Waking);
    assert(next.holders[k] == world.holders[k]);
}

/// A scope that has just been made is sound.
pub proof fn law_start_is_sound(backend: Backend)
    ensures
        World::start(backend).sound(),
{
}

/// Every step that a thread can take leads from a sound world to a sound
/// world.
pub proof fn law_steps_keep_soundness(world: World, step: Step)
    requires
        world.sound(),
        world.enabled(step),
    ensures
        world.after(step).sound(),
{
    let next = world.after(step);
    match step {
        Step::Issue => {
            lemma_live_push(world.holders, Holder::Holding);
        },
        Step::Clone(i) => {
            lemma_live_push(world.holders, Holder::Holding);
        },
        Step::Release(i) => {
            let released = Holder::Released { previous: world.count };
            lemma_live_update(world.holders, i, released);
            lemma_live_positive(world.holders, i);
            lemma_lock_kept(world, next, i, released);
            if next.count == 0 {
                assert(next.holders[i] == Holder::Released { previous: 1 });
            }
        },
        Step::Leave(i) => {
            lemma_live_update(world.holders, i, Holder::Gone);
            lemma_lock_kept(world, next, i, Holder::Gone);
            if world.count == 0 && world.waiter_depends_on_a_wake() {
                lemma_wake_kept(world, next, i, Holder::Gone);
            }
        },
        Step::Lock(i) => {
            lemma_live_update(world.holders, i, Holder::Waking);
            assert(next.holders[i] is Waking);
            assert forall|k: int| next.has(k) implies ((#[trigger] next.holders[k] is Waking
                || next.holders[k] is Notified) <==> next.lock == LockState::Holder(k)) by {
                if k != i {
                    assert(next.holders[k] == world.holders[k]);
                }
            }
        },
        Step::Notify(i) => {
            match world.backend {
                Backend::Blocking => {
                    lemma_live_update(world.holders, i, Holder::Notified);
                    assert(world.lock == LockState::Holder(i));
                    assert forall|k: int| next.has(k) implies ((
                    #[trigger] next.holders[k] is Waking || next.holders[k] is Notified)
                        <==> next.lock == LockState::Holder(k)) by {
                        if k != i {
                            assert(next.holders[k] == world.holders[k]);
                        }
                    }
                },
                Backend::Cooperative => {
                    lemma_live_update(world.holders, i, Holder::Gone);
                    lemma_lock_kept(world, next, i, Holder::Gone);
                },
            }
        },
        Step::Unlock(i) => {
            lemma_live_update(world.holders, i, Holder::Gone);
            assert(world.lock == LockState::Holder(i));
            assert forall|k: int| next.has(k) implies ((#[trigger] next.holders[k] is Waking
                || next.holders[k] is Notified) <==> next.lock == LockState::Holder(k)) by {
                if k != i {
                    assert(next.holders[k] == world.holders[k]);
                }
            }
            if next.count == 0 && next.waiter_depends_on_a_wake() {
                lemma_wake_kept(world, next, i, Holder::Gone);
            }
        },
        Step::Begin => {},
        Step::Observe => {},
        Step::Decide { timeout, waited } => {},
        Step::Stir => {},
    }
}

/// No wake is lost: once every guard has been released and every release
/// has run to the end, the counter, unless it is stuck, is zero, and the
/// waiter does not depend on a wake. On the blocking backend it is not
/// parked, and on the cooperative backend the future that it may be
/// suspended on has its wake.
pub proof fn law_no_lost_wakeup(world: World)
    requires
        world.sound(),
        world.settled(),
        world.count != u32::MAX,
    ensures
        world.count == 0,
        !world.waiter_depends_on_a_wake(),
        world.backend == Backend::Blocking ==> !world.waiter.sleeps_or_will(),
        world.backend == Backend::Cooperative && world.waiter.sleeps_or_will()
            ==> world.waiter.began() < world.raised,
        world.lock is Free || world.lock is Waiter,
{
    lemma_live_settled(world.holders);
    match world.lock {
        LockState::Holder(i) => {
            assert(world.holders[i] is Gone);
        },
        _ => {},
    }
    if world.waiter_depends_on_a_wake() {
        let k = choose|k: int|
            world.has(k) && (#[trigger] world.holders[k] == Holder::Released { previous: 1 }
                || world.holders[k] is Waking);
        assert(world.holders[k] is Gone);
    }
}

/// How many steps the waiter is from the end of a wait without a limit,
/// once every guard is gone: a stale reading sends it to sleep once more,
/// a sleeper comes back, begins a round, reads a zero and ends the wait.
pub open spec fn steps_to_go(waiter: Waiter) -> nat {
    match waiter {
        Waiter::Done => 0,
        Waiter::Read { seen, .. } => if outstanding(seen) {
            5
        } else {
            1
        },
        Waiter::Ready { .. } => 2,
        Waiter::Idle => 3,
        Waiter::Asleep { .. } => 4,
    }
}

/// Once every guard is gone, the waiter can take each of its steps, and each
/// brings it closer to the end.
proof fn lemma_waiter_runs_down(world: World, steps: nat)
    requires
        world.sound(),
        world.settled(),
        world.count != u32::MAX,
        steps_to_go(world.waiter) <= steps,
    ensures
        world.waiter_done_within(steps),
    decreases steps,
{
    law_no_lost_wakeup(world);
    if !(world.waiter is Done) {
        let next = world.after(world.waiter_step());
        law_steps_keep_soundness(world, world.waiter_step());
        assert(next.holders == world.holders);
        assert(steps_to_go(next.waiter) < steps_to_go(world.waiter));
        lemma_waiter_runs_down(next, (steps - 1) as nat);
    }
}

/// Once every guard has been released and every release has run to the
/// end, and unless the counter is stuck, a wait without a limit is over
/// within five steps of the waiter, each of which it can take without
/// anybody's help. At worst it has just read that
/// guards are out: it goes to sleep on a future that has its wake, comes
/// back, begins a round, reads a zero, and ends the wait.
pub proof fn law_waiter_finishes(world: World)
    requires
        world.sound(),
        world.settled(),
        world.count != u32::MAX,
    ensures
        world.waiter_done_within(5),
{
    lemma_waiter_runs_down(world, 5);
}

} // verus!
