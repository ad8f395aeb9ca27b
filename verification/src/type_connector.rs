//! Naming the type behind a scope without naming its lifetime.
//!
//! A scope and its guards agree on the borrowed type through a marker type
//! that implements [`TypeConnector`]. The marker itself holds no reference, so
//! it can be written down where the borrowed type, with its lifetime, cannot.

use vstd::prelude::*;

verus! {

/// A marker that stands for a borrowed type.
pub trait TypeConnector: 'static {
    /// The type that the marker stands for, without the leading `&`: to stand
    /// for `&&u8`, this is `&u8`.
    type Super<'a>: ?Sized;
}

} // verus!
