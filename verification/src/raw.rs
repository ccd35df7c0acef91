//! The capability that every kind of owned resource offers.

use vstd::prelude::*;

verus! {

/// What a kind of native resource must offer to be owned by a handle.
///
/// `destroy` is the native teardown. An owner calls it once, at the end of the
/// resource's life, while every value of the dependency bundle is still alive.
/// It cannot report failure: an implementation records a failing native call
/// in its diagnostics and returns.
pub trait RawHandle {
    /// The ancestors and auxiliary values that teardown needs.
    type Dependencies;

    /// The kind's name, used in diagnostics only.
    fn name() -> &'static str;

    /// Tears the resource down with the help of its dependencies.
    fn destroy(&self, deps: &Self::Dependencies);
}

} // verus!
