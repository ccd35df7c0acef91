//! Shared ownership of one native resource.

use vstd::prelude::*;
use crate::lifecycle::Stage;
use crate::raw::RawHandle;
use crate::unique::UniqueHandle;
use std::sync::Arc;

verus! {

/// Calls `Arc::clone`, which makes one more pointer to the same allocation
/// and adds one to its strong count. The contract claims that the new pointer
/// leads to the same value.
#[verifier::external_body]
fn arc_clone<V>(shared: &Arc<V>) -> (copy: Arc<V>)
    ensures
        copy == *shared,
{
    Arc::clone(shared)
}

/// Calls `Arc::strong_count`, the number of strong pointers to the
/// allocation. The pointer that is passed is one of them, so the number is at
/// least one; what it is beyond that depends on the other owners.
#[verifier::external_body]
fn arc_strong_count<V>(shared: &Arc<V>) -> (count: usize)
    ensures
        count >= 1,
{
    Arc::strong_count(shared)
}

/// Calls `Arc::try_unwrap`, which moves the value out if this is the only
/// strong pointer and hands the same pointer back if it is not. Which of the
/// two happens depends on the other owners; either way nothing is altered.
#[verifier::external_body]
fn arc_try_unwrap<V>(shared: Arc<V>) -> (outcome: Result<V, Arc<V>>)
    ensures
        match outcome {
            Ok(value) => value == *shared,
            Err(back) => back == shared,
        },
{
    Arc::try_unwrap(shared)
}

/// One of possibly many owners of the same resource.
///
/// The owners share a [`UniqueHandle`]. The resource is destroyed when the
/// last of them goes out of scope, and not before.
#[verifier::reject_recursive_types(T)]
#[verifier::reject_recursive_types(D)]
pub struct Handle<T, D> where T: RawHandle<Dependencies = D> {
    handle: Arc<UniqueHandle<T, D>>,
}

impl<T, D> Handle<T, D> where T: RawHandle<Dependencies = D> {
    /// The resource that is shared.
    pub closed spec fn resource(self) -> T {
        (*self.handle).resource()
    }

    /// The bundle that is shared with it.
    pub closed spec fn bundle(self) -> D {
        (*self.handle).bundle()
    }

    /// The owner that the handles of this group share.
    pub closed spec fn inner(self) -> UniqueHandle<T, D> {
        *self.handle
    }

    /// Takes ownership of a resource and of its bundle, as the first and so
    /// far only owner.
    ///
    /// The caller vouches that `handle` was created and not yet destroyed, and
    /// that everything in `dependencies` is alive: no code can test that.
    pub fn new(handle: T, dependencies: D) -> (shared: Self)
        ensures
            shared.resource() == handle,
            shared.bundle() == dependencies,
    {
        let unique = UniqueHandle::new(handle, dependencies);
        Handle { handle: Arc::new(unique) }
    }

    /// Lends the resource.
    pub fn handle(&self) -> (raw: &T)
        ensures
            *raw == self.resource(),
    {
        self.handle.handle()
    }

    /// Lends the bundle.
    pub fn dependencies(&self) -> (deps: &D)
        ensures
            *deps == self.bundle(),
    {
        self.handle.dependencies()
    }

    /// What an attempt to take the shared owner back amounts to. Where the
    /// owner came out, its parts are handed on and nothing is destroyed; where
    /// the pointer came back, it is wrapped again as the handle it was.
    pub fn settle(outcome: Result<UniqueHandle<T, D>, Arc<UniqueHandle<T, D>>>) -> (result: Result<
        (T, D),
        Self,
    >)
        ensures
            match outcome {
                Ok(unique) => result == Ok::<(T, D), Self>((unique.resource(), unique.bundle())),
                Err(back) => result.is_err() && result->Err_0.inner() == *back,
            },
    {
        match outcome {
            Ok(unique) => Ok(unique.into_inner()),
            Err(back) => Err(Handle { handle: back }),
        }
    }

    /// Tries to take the resource and its bundle back out of shared ownership.
    ///
    /// This succeeds when no other owner is left at the moment of the call.
    /// Then the parts come back and nothing is destroyed. Otherwise the handle
    /// itself comes back, as it was.
    pub fn try_unwrap(self) -> (result: Result<(T, D), Self>)
        ensures
            match result {
                Ok(parts) => parts.0 == self.resource() && parts.1 == self.bundle(),
                Err(back) => back == self,
            },
    {
        Self::settle(arc_try_unwrap(self.handle))
    }

    /// The number of owners at the moment of the call, this one included:
    /// the group is alive with that many owners.
    pub fn reference_count(&self) -> (count: usize)
        ensures
            Stage::Live(count as nat).alive(),
    {
        arc_strong_count(&self.handle)
    }
}

impl<T, D> Clone for Handle<T, D> where T: RawHandle<Dependencies = D> {
    /// One more owner of the same resource.
    fn clone(&self) -> (copy: Self)
        ensures
            copy == *self,
    {
        Handle { handle: arc_clone(&self.handle) }
    }
}

impl<T, D> std::ops::Deref for Handle<T, D> where T: RawHandle<Dependencies = D> {
    type Target = T;

    fn deref(&self) -> (raw: &T)
        ensures
            *raw == self.resource(),
    {
        self.handle()
    }
}

} // verus!
