//! The wrapper around the user's problem value.

use vstd::prelude::*;

verus! {

/// Opaque wrapper around a user problem value, constructed once and owned
/// by the runner for its lifetime.
#[derive(Debug)]
pub struct Problem<P> {
    inner: P,
}

impl<P> Problem<P> {
    /// The wrapped problem value, for specifications.
    pub closed spec fn spec_inner(&self) -> P {
        self.inner
    }

    /// Wrap a user problem value.
    pub(crate) fn new(inner: P) -> (r: Self)
        ensures
            r.spec_inner() == inner,
    {
        Problem { inner }
    }

    /// A reference to the wrapped problem value.
    pub fn as_ref(&self) -> (r: &P)
        ensures
            *r == self.spec_inner(),
    {
        &self.inner
    }
}

} // verus!
