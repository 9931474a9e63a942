//! Ownership and identity rules for handles into a native HDF5 library.
//!
//! The native library hands out identifiers and keeps a reference count for
//! each. This crate holds the rules by which such identifiers are owned,
//! copied, compared and let go of, and the lock under which the library is
//! entered. The calls into the library itself are the embedding program's:
//! it makes them with `h5call` and hands what they return to the functions
//! here, which decide what it means.

pub mod call;
pub mod error;
pub mod handle;
pub mod id;
pub mod names;
pub mod object;
pub mod plist;
pub mod sync;

pub use call::{h5call, h5check, ReturnCode};
pub use error::Error;
pub use handle::Handle;
pub use id::{IdKind, INVALID_ID};
pub use names::{to_cstring, NameCollector, ITER_CONTINUE};
pub use object::{Description, ObjectClass};
pub use plist::{HasStep, PropertyList};
pub use sync::{GlobalLock, LockGuard};
