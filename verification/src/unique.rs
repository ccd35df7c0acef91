//! Sole ownership of one native resource.

use vstd::prelude::*;
use crate::guard::{Armed, UniqueData};
use crate::raw::RawHandle;

verus! {

/// The only owner of a resource `T` and of its dependency bundle `D`.
///
/// When the owner goes out of scope the resource is destroyed once, with the
/// bundle at hand, and the bundle is released after that.
#[verifier::reject_recursive_types(T)]
#[verifier::reject_recursive_types(D)]
pub struct UniqueHandle<T, D> where T: RawHandle<Dependencies = D> {
    armed: Armed<T, D>,
}

impl<T, D> UniqueHandle<T, D> where T: RawHandle<Dependencies = D> {
    /// The resource that is owned.
    pub closed spec fn resource(self) -> T {
        self.armed.held().handle
    }

    /// The bundle that is owned with it.
    pub closed spec fn bundle(self) -> D {
        self.armed.held().dependencies
    }

    /// Takes ownership of a resource and of its bundle.
    ///
    /// The caller vouches that `handle` was created and not yet destroyed, and
    /// that everything in `dependencies` is alive: no code can test that.
    pub fn new(handle: T, dependencies: D) -> (unique: Self)
        ensures
            unique.resource() == handle,
            unique.bundle() == dependencies,
    {
        UniqueHandle { armed: Armed::arm(UniqueData { handle, dependencies }) }
    }

    /// Lends the resource.
    pub fn handle(&self) -> (raw: &T)
        ensures
            *raw == self.resource(),
    {
        &self.armed.peek().handle
    }

    /// Lends the bundle.
    pub fn dependencies(&self) -> (deps: &D)
        ensures
            *deps == self.bundle(),
    {
        &self.armed.peek().dependencies
    }

    /// Gives back the resource and its bundle without destroying anything.
    /// From here on the caller answers for the resource's teardown.
    pub fn into_inner(self) -> (parts: (T, D))
        ensures
            parts.0 == self.resource(),
            parts.1 == self.bundle(),
    {
        let data = self.armed.defuse();
        (data.handle, data.dependencies)
    }
}

} // verus!
