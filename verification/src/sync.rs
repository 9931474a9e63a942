//! The lock that serialises every call into the native library.
//!
//! The native library is not safe to enter from two threads at once. One
//! `GlobalLock` per process stands guard: whoever calls into the library
//! holds it for the length of that call. The lock is re-entrant, so an
//! operation that holds it may run another that takes it again.

use vstd::prelude::*;
use parking_lot::lock_api::{ReentrantMutex, ReentrantMutexGuard};
use parking_lot::{RawMutex, RawThreadId};

verus! {

/// `parking_lot::RawMutex`, the mutex underneath the lock. Opaque.
#[verifier::external_type_specification]
#[verifier::external_body]
pub struct ExRawMutex(RawMutex);

/// `parking_lot::RawThreadId`, by which the lock knows its owner. Opaque.
#[verifier::external_type_specification]
#[verifier::external_body]
pub struct ExRawThreadId(RawThreadId);

/// `lock_api::ReentrantMutex`, of which `parking_lot::ReentrantMutex` is an
/// instance. Opaque.
#[verifier::external_type_specification]
#[verifier::external_body]
#[verifier::reject_recursive_types(R)]
#[verifier::reject_recursive_types(G)]
#[verifier::reject_recursive_types(T)]
pub struct ExReentrantMutex<R, G, T: ?Sized>(ReentrantMutex<R, G, T>);

/// A process-wide re-entrant lock.
pub struct GlobalLock {
    mutex: ReentrantMutex<RawMutex, RawThreadId, ()>,
}

/// Proof that the current thread holds a `GlobalLock`. The lock is given
/// back when the guard goes out of scope.
///
/// Holds a `parking_lot::ReentrantMutexGuard`, whose bounds name traits of
/// `lock_api`; the guard is therefore kept out of the verifier's sight.
#[verifier::external_body]
pub struct LockGuard<'a> {
    guard: ReentrantMutexGuard<'a, RawMutex, RawThreadId, ()>,
}

/// Calls `parking_lot::ReentrantMutex::new`: a fresh, unlocked mutex.
/// Nothing is claimed of it.
#[verifier::external_body]
fn new_mutex() -> ReentrantMutex<RawMutex, RawThreadId, ()> {
    ReentrantMutex::new(())
}

/// Calls `parking_lot::ReentrantMutex::lock`, which blocks until the
/// current thread holds the mutex and returns at once where it holds it
/// already. Nothing is claimed of the guard.
#[verifier::external_body]
fn lock_mutex<'a>(mutex: &'a ReentrantMutex<RawMutex, RawThreadId, ()>) -> LockGuard<'a> {
    LockGuard { guard: mutex.lock() }
}

impl GlobalLock {
    /// A new lock, held by nobody.
    pub fn new() -> GlobalLock {
        GlobalLock { mutex: new_mutex() }
    }

    /// Takes the lock, waiting for as long as another thread holds it. A
    /// thread that holds the lock already takes it again without waiting.
    pub fn lock(&self) -> LockGuard<'_> {
        lock_mutex(&self.mutex)
    }

    /// Runs `func` with the lock held, and gives the lock back afterwards.
    pub fn sync<T, F: FnOnce() -> T>(&self, func: F) -> (result: T)
        requires
            func.requires(()),
        ensures
            func.ensures((), result),
    {
        let _guard = self.lock();
        func()
    }
}

} // verus!
