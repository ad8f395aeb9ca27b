//! The guards that a scope hands out.

use crate::counter::{wakes, GuardEvent};
use crate::ledger::{share, Departure, Ledger};
use crate::type_connector::TypeConnector;
use std::sync::Arc;
use vstd::prelude::*;

verus! {

/// A handle on the data of a [`ScopedRef`](crate::ScopedRef), counted by the
/// scope from the moment it is made until it is released.
///
/// A guard reads the data and nothing else. It can be sent to another thread
/// or task wherever a reference to the data can; two threads that want to
/// read at once hold a clone each.
///
/// A guard is given back with [`ScopedRefGuard::release`]. One that is
/// dropped without it stays counted, so that its scope waits for it for
/// good: releasing may wake tasks, whose wakers may panic, and a drop must
/// not.
pub struct ScopedRefGuard<'a, ConnectorType: TypeConnector> {
    data: &'a ConnectorType::Super<'a>,
    ledger: Arc<Ledger>,
}

impl<'a, ConnectorType: TypeConnector> ScopedRefGuard<'a, ConnectorType> {
    /// The data that the guard reads.
    pub closed spec fn target(&self) -> &'a ConnectorType::Super<'a> {
        self.data
    }

    /// The ledger that counts the guard: that of the scope it came from.
    pub closed spec fn link(&self) -> Ledger {
        *self.ledger
    }

    /// A guard on `data` that `ledger` has just counted.
    pub(crate) fn attach(data: &'a ConnectorType::Super<'a>, ledger: Arc<Ledger>) -> (guard: Self)
        ensures
            guard.target() == data,
            guard.link() == *ledger,
    {
        ScopedRefGuard { data, ledger }
    }

    /// The data behind the guard, for as long as the guard is borrowed: the
    /// very data that the scope was made with.
    pub fn inner(&self) -> (data: &ConnectorType::Super<'a>)
        ensures
            data == self.target(),
    {
        self.data
    }

    /// Gives the guard back: takes it off the counter, by one atomic update,
    /// and wakes everybody who waits for the guards if this was the last
    /// one. The wake is raised exactly by the release that found the counter
    /// at 1.
    pub fn release(self) -> (departure: Departure)
        ensures
            departure.counted == (0 < departure.previous < u32::MAX),
            departure.woke == wakes(departure.previous),
    {
        self.ledger.leave()
    }
}

impl<'a, ConnectorType: TypeConnector> Clone for ScopedRefGuard<'a, ConnectorType> {
    /// A second guard on the same data, counted by the same ledger. The
    /// counter is raised, by one atomic update, before the new guard
    /// exists.
    fn clone(&self) -> (copy: Self)
        ensures
            copy.target() == self.target(),
            copy.link() == self.link(),
    {
        let _arrival = self.ledger.enter(GuardEvent::Clone);
        ScopedRefGuard { data: self.data, ledger: share(&self.ledger) }
    }
}

} // verus!
