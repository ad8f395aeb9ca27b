//! A runtime-checked scope for borrowed data.
//!
//! A [`ScopedRef`] stands in front of a borrowed value and hands out
//! [`ScopedRefGuard`]s, each of which reads the value. The scope counts the
//! guards that are alive, wakes whoever waits for them when the last one is
//! released, and decides, from its [`Policy`], what retiring the scope has to do
//! while guards are still out.
//!
//! The counting protocol is stated and proved in [`counter`], the planning of
//! a wait in [`wait`], and the reason why no wake is lost in [`protocol`].
//!
//! Everything in this crate is verified with Verus. What is taken on trust is
//! the behaviour of the synchronisation primitives of `std` and of
//! `tokio::sync::Notify`; each such item says so in its documentation.

pub mod channel;
pub mod counter;
pub mod ledger;
pub mod policy;
pub mod protocol;
pub mod scoped_ref;
pub mod scoped_ref_guard;
pub mod type_connector;
pub mod wait;

pub use channel::{Suspension, WaitRound};
pub use counter::GuardEvent;
pub use ledger::{Arrival, Departure, Ledger, Retirement};
pub use policy::{Backend, ConfigError, Policy, RetireAction, Selection, Teardown, Unwind};
pub use scoped_ref::ScopedRef;
pub use scoped_ref_guard::ScopedRefGuard;
pub use type_connector::TypeConnector;
pub use wait::{Span, WaitStep};
