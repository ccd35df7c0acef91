//! Ownership of native resources whose teardown depends on other resources.
//!
//! A [`UniqueHandle`] is the sole owner of one native resource and of the
//! bundle of ancestors that the resource needs; a [`Handle`] shares such an
//! owner by reference counting. Tearing a resource down always happens before
//! its bundle is released, so ancestors outlive what was made from them.

pub mod compare;
pub mod debug_report;
mod guard;
pub mod lifecycle;
pub mod nesting;
pub mod raw;
pub mod shared;
pub mod surface;
pub mod unique;

pub use raw::RawHandle;
pub use shared::Handle;
pub use unique::UniqueHandle;
