//! The armed pair: a resource and its bundle under a teardown hook.
//!
//! The hook is a `scopeguard::ScopeGuard`. Its destructor hands the pair to
//! [`teardown`]; taking the pair back out disarms it. What the guard does is
//! not proved here: the three functions that touch it state what its source
//! shows, and everything else in the crate is proved from them.

use vstd::prelude::*;
use crate::raw::RawHandle;

verus! {

/// A resource together with the bundle it depends on.
pub struct UniqueData<T, D> {
    pub handle: T,
    pub dependencies: D,
}

/// Ends the life of a pair: the resource is destroyed with its bundle at hand,
/// and only then are the resource value and the bundle released, in that order.
pub fn teardown<T, D>(data: UniqueData<T, D>) where T: RawHandle<Dependencies = D> {
    data.handle.destroy(&data.dependencies);
}

/// The guard of the outside crate, with [`teardown`] as its closing action.
///
/// Its type names a function pointer, which the verifier does not take, so
/// the struct is closed to it.
#[verifier::external_body]
#[verifier::reject_recursive_types(T)]
#[verifier::reject_recursive_types(D)]
pub struct Hook<T, D> where T: RawHandle<Dependencies = D> {
    guard: scopeguard::ScopeGuard<UniqueData<T, D>, fn(UniqueData<T, D>), scopeguard::Always>,
}

/// A pair under its hook. `shadow` records which pair the hook owns.
///
/// Only [`Armed::arm`] makes a value of this type and nothing changes one, so
/// the record and the guard's content cannot come apart.
#[verifier::reject_recursive_types(T)]
#[verifier::reject_recursive_types(D)]
pub struct Armed<T, D> where T: RawHandle<Dependencies = D> {
    hook: Hook<T, D>,
    shadow: Ghost<UniqueData<T, D>>,
}

impl<T, D> Armed<T, D> where T: RawHandle<Dependencies = D> {
    /// The pair that the hook owns.
    pub closed spec fn held(self) -> UniqueData<T, D> {
        self.shadow@
    }

    /// Calls `scopeguard::guard`, which stores `data` beside the closing
    /// action and runs the action on it when the guard is dropped. The
    /// contract claims that the new guard owns exactly `data`.
    #[verifier::external_body]
    pub(crate) fn arm(data: UniqueData<T, D>) -> (armed: Self)
        ensures
            armed.held() == data,
    {
        Armed { hook: Hook { guard: scopeguard::guard(data, teardown::<T, D>) }, shadow: Ghost(data) }
    }

    /// Calls `ScopeGuard::deref`, which lends the stored value. The contract
    /// claims that what is lent is the pair the guard was armed with.
    #[verifier::external_body]
    pub(crate) fn peek(&self) -> (data: &UniqueData<T, D>)
        ensures
            *data == self.held(),
    {
        &self.hook.guard
    }

    /// Calls `ScopeGuard::into_inner`, which gives the stored value back and
    /// forgets the closing action without running it. The contract claims that
    /// what comes back is the pair the guard was armed with.
    #[verifier::external_body]
    pub(crate) fn defuse(self) -> (data: UniqueData<T, D>)
        ensures
            data == self.held(),
    {
        scopeguard::ScopeGuard::into_inner(self.hook.guard)
    }
}

} // verus!
