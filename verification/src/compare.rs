//! Equality and order of handles: those of the resources they own.

use vstd::prelude::*;
use vstd::std_specs::cmp::{PartialEqSpec, PartialEqSpecImpl, PartialOrdSpec, PartialOrdSpecImpl};
use crate::raw::RawHandle;
use crate::shared::Handle;
use crate::unique::UniqueHandle;
use std::cmp::Ordering;

verus! {

impl<T, D> PartialEq for UniqueHandle<T, D> where T: RawHandle<Dependencies = D> + PartialEq {
    fn eq(&self, other: &Self) -> (same: bool) {
        self.handle().eq(other.handle())
    }
}

impl<T, D> PartialEqSpecImpl for UniqueHandle<T, D> where T: RawHandle<Dependencies = D> + PartialEq {
    open spec fn obeys_eq_spec() -> bool {
        T::obeys_eq_spec()
    }

    open spec fn eq_spec(&self, other: &Self) -> bool {
        self.resource().eq_spec(&other.resource())
    }
}

impl<T, D> PartialEq for Handle<T, D> where T: RawHandle<Dependencies = D> + PartialEq {
    fn eq(&self, other: &Self) -> (same: bool) {
        self.handle().eq(other.handle())
    }
}

impl<T, D> PartialEqSpecImpl for Handle<T, D> where T: RawHandle<Dependencies = D> + PartialEq {
    open spec fn obeys_eq_spec() -> bool {
        T::obeys_eq_spec()
    }

    open spec fn eq_spec(&self, other: &Self) -> bool {
        self.resource().eq_spec(&other.resource())
    }
}

impl<T, D> PartialOrd for Handle<T, D> where T: RawHandle<Dependencies = D> + PartialOrd {
    fn partial_cmp(&self, other: &Self) -> (order: Option<Ordering>) {
        self.handle().partial_cmp(other.handle())
    }
}

impl<T, D> PartialOrdSpecImpl for Handle<T, D> where T: RawHandle<Dependencies = D> + PartialOrd {
    open spec fn obeys_partial_cmp_spec() -> bool {
        T::obeys_partial_cmp_spec()
    }

    open spec fn partial_cmp_spec(&self, other: &Self) -> Option<Ordering> {
        self.resource().partial_cmp_spec(&other.resource())
    }
}

impl<T, D> PartialOrd for UniqueHandle<T, D> where T: RawHandle<Dependencies = D> + PartialOrd {
    fn partial_cmp(&self, other: &Self) -> (order: Option<Ordering>) {
        self.handle().partial_cmp(other.handle())
    }
}

impl<T, D> PartialOrdSpecImpl for UniqueHandle<T, D> where T: RawHandle<Dependencies = D> + PartialOrd {
    open spec fn obeys_partial_cmp_spec() -> bool {
        T::obeys_partial_cmp_spec()
    }

    open spec fn partial_cmp_spec(&self, other: &Self) -> Option<Ordering> {
        self.resource().partial_cmp_spec(&other.resource())
    }
}

impl<T, D> Eq for UniqueHandle<T, D> where T: RawHandle<Dependencies = D> + Eq {
}

impl<T, D> Eq for Handle<T, D> where T: RawHandle<Dependencies = D> + Eq {
}

/// Calls `Hash::hash`, which feeds `value` to the hasher. Nothing is claimed
/// of the hasher's state.
#[verifier::external_body]
fn feed<V: std::hash::Hash, H: std::hash::Hasher>(value: &V, state: &mut H) {
    value.hash(state)
}

impl<T, D> std::hash::Hash for UniqueHandle<T, D> where T: RawHandle<Dependencies = D> + std::hash::Hash {
    fn hash<H: std::hash::Hasher>(&self, state: &mut H) {
        feed(self.handle(), state)
    }
}

impl<T, D> std::hash::Hash for Handle<T, D> where T: RawHandle<Dependencies = D> + std::hash::Hash {
    fn hash<H: std::hash::Hasher>(&self, state: &mut H) {
        feed(self.handle(), state)
    }
}

} // verus!
