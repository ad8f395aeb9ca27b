//! What a scope is configured to do, and what retiring it comes to.
//!
//! A configuration is written down as a [`Selection`]: one flag per option,
//! in three groups. [`Policy::from_selection`] accepts it when each group has
//! exactly one flag set. [`Policy::on_retire`] decides the teardown: from the
//! policy, from whether the thread is unwinding and from whether guards are
//! still out, it says what retiring the scope must do.

use vstd::prelude::*;

verus! {

/// How a waiter is parked until the guards are gone.
#[derive(Clone, Copy, Debug, PartialEq, Eq, Structural)]
pub enum Backend {
    /// The waiting thread blocks on a lock and a condition variable.
    Blocking,
    /// The waiting task suspends on an async notifier.
    Cooperative,
}

/// What retiring a scope does while guards are still out.
#[derive(Clone, Copy, Debug, PartialEq, Eq, Structural)]
pub enum Teardown {
    /// Wait until every guard has been released.
    Block,
    /// End the process.
    Abort,
    /// Raise a panic. A caller that catches it and then frees the data leaves
    /// the guards dangling.
    Panic,
    /// Go on as if no guard were out.
    Ignore,
}

/// What retiring a scope does on a thread that is already unwinding.
#[derive(Clone, Copy, Debug, PartialEq, Eq, Structural)]
pub enum Unwind {
    /// End the process, whatever the teardown option says.
    Abort,
    /// Apply the teardown option as on any other thread.
    Ignore,
}

/// The options as they are switched on, one flag each.
#[derive(Clone, Copy, Debug, PartialEq, Eq, Structural)]
pub struct Selection {
    /// Backend: block the waiting thread.
    pub runtime_none: bool,
    /// Backend: suspend the waiting task on the tokio runtime.
    pub runtime_tokio: bool,
    /// Teardown: wait for the guards.
    pub drop_does_block: bool,
    /// Teardown: end the process if guards are out.
    pub drop_does_abort: bool,
    /// Teardown: panic if guards are out.
    pub unsafe_drop_does_panic: bool,
    /// Teardown: do nothing.
    pub unsafe_drop_does_nothing: bool,
    /// Unwinding: end the process.
    pub unwind_does_abort: bool,
    /// Unwinding: apply the teardown option.
    pub unsafe_ignore_unwind: bool,
}

/// Why a [`Selection`] is not a configuration.
#[derive(Clone, Copy, Debug, PartialEq, Eq, Structural)]
pub enum ConfigError {
    /// No backend is switched on.
    NoBackend,
    /// Both backends are switched on.
    ConflictingBackends,
    /// No teardown option is switched on.
    NoTeardown,
    /// More than one teardown option is switched on.
    ConflictingTeardowns,
    /// No unwinding option is switched on.
    NoUnwind,
    /// Both unwinding options are switched on.
    ConflictingUnwinds,
}

/// A configuration: one option out of each group.
#[derive(Clone, Copy, Debug, PartialEq, Eq, Structural)]
pub struct Policy {
    /// How waiters are parked.
    pub backend: Backend,
    /// What retiring does while guards are out.
    pub teardown: Teardown,
    /// What retiring does while unwinding.
    pub unwind: Unwind,
}

/// What retiring a scope has to do.
#[derive(Clone, Copy, Debug, PartialEq, Eq, Structural)]
pub enum RetireAction {
    /// Nothing stands in the way: the scope may go.
    Proceed,
    /// Guards are out: wait, without a time limit, until they are gone.
    Wait,
    /// The thread is unwinding: end the process.
    AbortUnwinding,
    /// Guards are out: end the process.
    AbortOutstanding,
    /// Guards are out: raise a panic.
    PanicOutstanding,
}

/// 1 for a flag that is set, 0 for one that is not.
pub open spec fn picked(flag: bool) -> nat {
    if flag {
        1
    } else {
        0
    }
}

impl Selection {
    /// How many backends are switched on.
    pub open spec fn backends(self) -> nat {
        picked(self.runtime_none) + picked(self.runtime_tokio)
    }

    /// How many teardown options are switched on.
    pub open spec fn teardowns(self) -> nat {
        picked(self.drop_does_block) + picked(self.drop_does_abort) + picked(
            self.unsafe_drop_does_panic,
        ) + picked(self.unsafe_drop_does_nothing)
    }

    /// How many unwinding options are switched on.
    pub open spec fn unwinds(self) -> nat {
        picked(self.unwind_does_abort) + picked(self.unsafe_ignore_unwind)
    }

    /// Each group has exactly one option switched on.
    pub open spec fn well_formed(self) -> bool {
        self.backends() == 1 && self.teardowns() == 1 && self.unwinds() == 1
    }

    /// The options that are switched on, read as a policy. This is meant for
    /// a well-formed selection, where each `if` finds the one flag of its
    /// group.
    pub open spec fn chosen(self) -> Policy {
        Policy {
            backend: if self.runtime_none {
                Backend::Blocking
            } else {
                Backend::Cooperative
            },
            teardown: if self.drop_does_block {
                Teardown::Block
            } else if self.drop_does_abort {
                Teardown::Abort
            } else if self.unsafe_drop_does_panic {
                Teardown::Panic
            } else {
                Teardown::Ignore
            },
            unwind: if self.unwind_does_abort {
                Unwind::Abort
            } else {
                Unwind::Ignore
            },
        }
    }

    /// What validating the selection gives. The groups are looked at in the
    /// order backend, teardown, unwinding, and the first group that is not
    /// well-formed names the error.
    pub open spec fn resolved(self) -> Result<Policy, ConfigError> {
        if self.backends() == 0 {
            Err(ConfigError::NoBackend)
        } else if self.backends() > 1 {
            Err(ConfigError::ConflictingBackends)
        } else if self.teardowns() == 0 {
            Err(ConfigError::NoTeardown)
        } else if self.teardowns() > 1 {
            Err(ConfigError::ConflictingTeardowns)
        } else if self.unwinds() == 0 {
            Err(ConfigError::NoUnwind)
        } else if self.unwinds() > 1 {
            Err(ConfigError::ConflictingUnwinds)
        } else {
            Ok(self.chosen())
        }
    }
}

impl Backend {
    /// Whether a scope on this backend can be waited on, given whether the
    /// waiting thread is inside a tokio runtime: only the cooperative backend
    /// needs one.
    pub fn runtime_suffices(self, inside_runtime: bool) -> (ok: bool)
        ensures
            ok == (self == Backend::Blocking || inside_runtime),
    {
        match self {
            Backend::Blocking => true,
            Backend::Cooperative => inside_runtime,
        }
    }
}

impl ConfigError {
    /// The words in which the error is reported.
    pub open spec fn text(self) -> &'static str {
        match self {
            ConfigError::NoBackend =>
                "At least one of these features must be enabled in the `scoped-ref` crate: \"runtime-none\" or \"runtime-tokio\"",
            ConfigError::ConflictingBackends =>
                "Only one of these features may be enabled in the `scoped-ref` crate: \"runtime-none\" or \"runtime-tokio\" (be sure to check default features)",
            ConfigError::NoTeardown =>
                "At least one of these features must be enabled in the `scoped-ref` crate: \"drop-does-block\", \"drop-does-abort\", \"unsafe-drop-does-panic\", or \"unsafe-drop-does-nothing\"",
            ConfigError::ConflictingTeardowns =>
                "Only one of these features may be enabled in the `scoped-ref` crate: \"drop-does-block\", \"drop-does-abort\", \"unsafe-drop-does-panic\", or \"unsafe-drop-does-nothing\" (be sure to check default features)",
            ConfigError::NoUnwind =>
                "At least one of these features must be enabled in the `scoped-ref` crate: \"unwind-does-abort\" or \"unsafe-ignore-unwind\"",
            ConfigError::ConflictingUnwinds =>
                "Only one of these features may be enabled in the `scoped-ref` crate: \"unwind-does-abort\" or \"unsafe-ignore-unwind\" (be sure to check default features)",
        }
    }

    /// The words in which the error is reported.
    pub fn message(&self) -> (text: &'static str)
        ensures
            text == self.text(),
    {
        match self {
            ConfigError::NoBackend =>
                "At least one of these features must be enabled in the `scoped-ref` crate: \"runtime-none\" or \"runtime-tokio\"",
            ConfigError::ConflictingBackends =>
                "Only one of these features may be enabled in the `scoped-ref` crate: \"runtime-none\" or \"runtime-tokio\" (be sure to check default features)",
            ConfigError::NoTeardown =>
                "At least one of these features must be enabled in the `scoped-ref` crate: \"drop-does-block\", \"drop-does-abort\", \"unsafe-drop-does-panic\", or \"unsafe-drop-does-nothing\"",
            ConfigError::ConflictingTeardowns =>
                "Only one of these features may be enabled in the `scoped-ref` crate: \"drop-does-block\", \"drop-does-abort\", \"unsafe-drop-does-panic\", or \"unsafe-drop-does-nothing\" (be sure to check default features)",
            ConfigError::NoUnwind =>
                "At least one of these features must be enabled in the `scoped-ref` crate: \"unwind-does-abort\" or \"unsafe-ignore-unwind\"",
            ConfigError::ConflictingUnwinds =>
                "Only one of these features may be enabled in the `scoped-ref` crate: \"unwind-does-abort\" or \"unsafe-ignore-unwind\" (be sure to check default features)",
        }
    }
}

impl RetireAction {
    /// What is reported before the process ends or the panic is raised, for
    /// the actions that do either.
    pub open spec fn text(self) -> Option<&'static str> {
        match self {
            RetireAction::AbortUnwinding => Some(
                "Program must be aborted due to a `ScopedRef` being dropped on unwind.",
            ),
            RetireAction::AbortOutstanding => Some(
                "Attempting to drop a `ScopedRef` while it still has active guards",
            ),
            RetireAction::PanicOutstanding => Some(
                "Attempting to drop a `ScopedRef` while it still has active guards",
            ),
            RetireAction::Proceed => None,
            RetireAction::Wait => None,
        }
    }

    /// What is reported before the process ends or the panic is raised, for
    /// the actions that do either.
    pub fn message(&self) -> (text: Option<&'static str>)
        ensures
            text == self.text(),
    {
        match self {
            RetireAction::AbortUnwinding => Some(
                "Program must be aborted due to a `ScopedRef` being dropped on unwind.",
            ),
            RetireAction::AbortOutstanding | RetireAction::PanicOutstanding => Some(
                "Attempting to drop a `ScopedRef` while it still has active guards",
            ),
            RetireAction::Proceed | RetireAction::Wait => None,
        }
    }
}

/// Counts one flag in executable code.
fn tally(flag: bool) -> (n: u8)
    ensures
        n == picked(flag),
{
    if flag {
        1
    } else {
        0
    }
}

impl Policy {
    /// The selection that writes the policy down: in each group, the flag of
    /// the policy's option and no other.
    pub open spec fn selection(self) -> Selection {
        Selection {
            runtime_none: self.backend == Backend::Blocking,
            runtime_tokio: self.backend == Backend::Cooperative,
            drop_does_block: self.teardown == Teardown::Block,
            drop_does_abort: self.teardown == Teardown::Abort,
            unsafe_drop_does_panic: self.teardown == Teardown::Panic,
            unsafe_drop_does_nothing: self.teardown == Teardown::Ignore,
            unwind_does_abort: self.unwind == Unwind::Abort,
            unsafe_ignore_unwind: self.unwind == Unwind::Ignore,
        }
    }

    /// The policy of a scope that was given none: suspend on the tokio
    /// runtime, wait for the guards on teardown, end the process on
    /// unwinding.
    pub open spec fn standard() -> Policy {
        Policy {
            backend: Backend::Cooperative,
            teardown: Teardown::Block,
            unwind: Unwind::Abort,
        }
    }

    /// The retirement that a policy stands for, as a function of what is
    /// known when the scope is retired.
    ///
    /// Unwinding is looked at first: under [`Unwind::Abort`] an unwinding
    /// thread ends the process whatever else holds. Otherwise a scope
    /// without guards may go, and one with guards does what the teardown
    /// option says.
    pub open spec fn retirement(self, unwinding: bool, outstanding: bool) -> RetireAction {
        if unwinding && self.unwind == Unwind::Abort {
            RetireAction::AbortUnwinding
        } else if !outstanding {
            RetireAction::Proceed
        } else {
            match self.teardown {
                Teardown::Block => RetireAction::Wait,
                Teardown::Abort => RetireAction::AbortOutstanding,
                Teardown::Panic => RetireAction::PanicOutstanding,
                Teardown::Ignore => RetireAction::Proceed,
            }
        }
    }

    /// Validates a selection: a policy if each group has exactly one flag
    /// set, and else the error of the first group, in the order backend,
    /// teardown, unwinding, that has none or more than one.
    pub fn from_selection(sel: &Selection) -> (r: Result<Policy, ConfigError>)
        ensures
            r == sel.resolved(),
            r is Ok <==> sel.well_formed(),
    {
        let backends: u8 = tally(sel.runtime_none) + tally(sel.runtime_tokio);
        if backends == 0 {
            return Err(ConfigError::NoBackend);
        }
        if backends > 1 {
            return Err(ConfigError::ConflictingBackends);
        }
        let teardowns: u8 = tally(sel.drop_does_block) + tally(sel.drop_does_abort) + tally(
            sel.unsafe_drop_does_panic,
        ) + tally(sel.unsafe_drop_does_nothing);
        if teardowns == 0 {
            return Err(ConfigError::NoTeardown);
        }
        if teardowns > 1 {
            return Err(ConfigError::ConflictingTeardowns);
        }
        let unwinds: u8 = tally(sel.unwind_does_abort) + tally(sel.unsafe_ignore_unwind);
        if unwinds == 0 {
            return Err(ConfigError::NoUnwind);
        }
        if unwinds > 1 {
            return Err(ConfigError::ConflictingUnwinds);
        }
        let backend = if sel.runtime_none {
            Backend::Blocking
        } else {
            Backend::Cooperative
        };
        let teardown = if sel.drop_does_block {
            Teardown::Block
        } else if sel.drop_does_abort {
            Teardown::Abort
        } else if sel.unsafe_drop_does_panic {
            Teardown::Panic
        } else {
            Teardown::Ignore
        };
        let unwind = if sel.unwind_does_abort {
            Unwind::Abort
        } else {
            Unwind::Ignore
        };
        Ok(Policy { backend, teardown, unwind })
    }

    /// Writes the policy down as a selection, which validates to the policy
    /// again.
    pub fn to_selection(&self) -> (sel: Selection)
        ensures
            sel == self.selection(),
            sel.resolved() == Ok::<Policy, ConfigError>(*self),
    {
        Selection {
            runtime_none: self.backend == Backend::Blocking,
            runtime_tokio: self.backend == Backend::Cooperative,
            drop_does_block: self.teardown == Teardown::Block,
            drop_does_abort: self.teardown == Teardown::Abort,
            unsafe_drop_does_panic: self.teardown == Teardown::Panic,
            unsafe_drop_does_nothing: self.teardown == Teardown::Ignore,
            unwind_does_abort: self.unwind == Unwind::Abort,
            unsafe_ignore_unwind: self.unwind == Unwind::Ignore,
        }
    }

    /// Decides the teardown. `unwinding` says whether the retiring thread is
    /// unwinding from a panic, `outstanding` whether guards are still out.
    pub fn on_retire(&self, unwinding: bool, outstanding: bool) -> (action: RetireAction)
        ensures
            action == self.retirement(unwinding, outstanding),
    {
        if unwinding && self.unwind == Unwind::Abort {
            return RetireAction::AbortUnwinding;
        }
        if !outstanding {
            return RetireAction::Proceed;
        }
        match self.teardown {
            Teardown::Block => RetireAction::Wait,
            Teardown::Abort => RetireAction::AbortOutstanding,
            Teardown::Panic => RetireAction::PanicOutstanding,
            Teardown::Ignore => RetireAction::Proceed,
        }
    }
}

impl Default for Policy {
    /// The policy [`Policy::standard`].
    fn default() -> (policy: Policy)
        ensures
            policy == Policy::standard(),
    {
        Policy { backend: Backend::Cooperative, teardown: Teardown::Block, unwind: Unwind::Abort }
    }
}

/// A scope without guards is never held up, unless it is retired on an
/// unwinding thread under [`Unwind::Abort`].
pub proof fn law_no_guards_no_delay(policy: Policy, unwinding: bool)
    ensures
        policy.retirement(unwinding, false) == if unwinding && policy.unwind == Unwind::Abort {
            RetireAction::AbortUnwinding
        } else {
            RetireAction::Proceed
        },
{
}

/// Under [`Teardown::Block`], on a thread that is not unwinding, a scope
/// goes while guards are out in no other way than by waiting for them.
pub proof fn law_block_waits(policy: Policy, outstanding: bool)
    requires
        policy.teardown == Teardown::Block,
    ensures
        policy.retirement(false, outstanding) == if outstanding {
            RetireAction::Wait
        } else {
            RetireAction::Proceed
        },
{
}

/// Under [`Unwind::Abort`] an unwinding thread ends the process, whatever
/// the teardown option and whether or not guards are out.
pub proof fn law_unwinding_aborts(policy: Policy, outstanding: bool)
    requires
        policy.unwind == Unwind::Abort,
    ensures
        policy.retirement(true, outstanding) == RetireAction::AbortUnwinding,
{
}

/// Validation and [`Policy::to_selection`] undo each other: a selection is
/// accepted as `policy` if and only if it is the one that writes `policy`
/// down.
pub proof fn law_selection_round_trip(sel: Selection, policy: Policy)
    ensures
        sel.resolved() == Ok::<Policy, ConfigError>(policy) <==> sel == policy.selection(),
{
}

} // verus!
