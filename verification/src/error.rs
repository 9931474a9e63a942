//! The failures that reach a caller.

use vstd::prelude::*;

verus! {

/// A failure raised to the caller.
#[derive(Debug, PartialEq, Eq)]
pub enum Error {
    /// A native primitive signalled failure; carries the text of the
    /// library's error stack at that moment.
    NativeCall(String),
    /// A constructor was handed an identifier that is the sentinel or whose
    /// kind the constructed class does not accept.
    InvalidIdentifier { id: i64 },
}

} // verus!
