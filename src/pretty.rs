//! A wrapper that stands for a value in diagnostics.
use vstd::prelude::*;

verus! {

/// Wraps a value so that its user-facing rendering is shown where a debugging
/// one would be.
pub struct Pretty<T>(T);

impl<T> Pretty<T> {
    /// The wrapped value.
    pub closed spec fn inner(self) -> T {
        self.0
    }

    /// Unwraps the value.
    pub fn into_inner(self) -> (r: T)
        ensures
            r == self.inner(),
    {
        self.0
    }
}

impl<T> From<T> for Pretty<T> {
    fn from(val: T) -> (r: Self)
        ensures
            r.inner() == val,
    {
        Pretty(val)
    }
}

impl<T> vstd::std_specs::convert::FromSpecImpl<T> for Pretty<T> {
    open spec fn obeys_from_spec() -> bool {
        true
    }

    closed spec fn from_spec(v: T) -> Self {
        Pretty(v)
    }
}

/// Wraps any value in `Pretty`.
pub trait Prettify: Sized {
    /// Wraps `self` in `Pretty`.
    fn prettify(self) -> (r: Pretty<Self>)
        ensures
            r.inner() == self,
    {
        Pretty::from(self)
    }
}

} // verus!
