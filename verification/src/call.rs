//! Calls into the native library, and the meaning of what they return.

use vstd::prelude::*;
use crate::error::Error;
use crate::sync::GlobalLock;

verus! {

/// A raw value returned by a native primitive. By the library's convention
/// a negative value signals failure.
pub trait ReturnCode: Sized {
    /// Whether the value signals failure.
    spec fn spec_is_err_code(&self) -> bool;

    /// Whether the value signals failure.
    fn is_err_code(&self) -> (failed: bool)
        ensures
            failed == self.spec_is_err_code(),
    ;
}

impl ReturnCode for i32 {
    open spec fn spec_is_err_code(&self) -> bool {
        *self < 0
    }

    fn is_err_code(&self) -> (failed: bool) {
        *self < 0
    }
}

impl ReturnCode for i64 {
    open spec fn spec_is_err_code(&self) -> bool {
        *self < 0
    }

    fn is_err_code(&self) -> (failed: bool) {
        *self < 0
    }
}

/// What a finished native call amounts to: a failure signal becomes an
/// error that carries the text of the error stack, anything else is the
/// value itself.
pub open spec fn checked<T: ReturnCode>(raw: T, error_stack: String) -> Result<T, Error> {
    if raw.spec_is_err_code() {
        Err(Error::NativeCall(error_stack))
    } else {
        Ok(raw)
    }
}

/// Reads the raw value that a native primitive returned, where
/// `error_stack` is the text of the library's error stack after the call.
pub fn h5check<T: ReturnCode>(raw: T, error_stack: String) -> (result: Result<T, Error>)
    ensures
        result == checked(raw, error_stack),
{
    if raw.is_err_code() {
        Err(Error::NativeCall(error_stack))
    } else {
        Ok(raw)
    }
}

/// Runs one native primitive with the lock held and reads what it
/// returns. The error stack is read, under the same hold of the lock, only
/// where the primitive signalled failure.
pub fn h5call<T: ReturnCode, F: FnOnce() -> T, D: FnOnce() -> String>(
    lock: &GlobalLock,
    primitive: F,
    error_stack: D,
) -> (result: Result<T, Error>)
    requires
        primitive.requires(()),
        error_stack.requires(()),
    ensures
        result matches Ok(raw) ==> primitive.ensures((), raw) && !raw.spec_is_err_code(),
        result matches Err(e) ==> exists|raw: T, text: String|
            #![trigger primitive.ensures((), raw), error_stack.ensures((), text)]
            primitive.ensures((), raw) && raw.spec_is_err_code() && error_stack.ensures((), text)
                && e == Error::NativeCall(text),
{
    let _guard = lock.lock();
    let raw = primitive();
    if raw.is_err_code() {
        let text = error_stack();
        h5check(raw, text)
    } else {
        Ok(raw)
    }
}

} // verus!
