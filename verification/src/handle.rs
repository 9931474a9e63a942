//! Exclusive ownership of one native identifier.

use vstd::prelude::*;
use crate::error::Error;
use crate::id::INVALID_ID;

verus! {

/// Whether an identifier denotes a live object: it is not the sentinel, and
/// the native library reports it valid.
pub open spec fn live(id: i64, reported_valid: bool) -> bool {
    id != INVALID_ID && reported_valid
}

/// The identifier to hand to the native release primitive when the owner of
/// `id` lets go of it: `id` itself where it is live, none otherwise.
pub open spec fn to_release(id: i64, reported_valid: bool) -> Option<i64> {
    if live(id, reported_valid) {
        Some(id)
    } else {
        None
    }
}

/// The sole owner of one native identifier.
///
/// A handle is neither `Clone` nor `Copy`: a second handle for the same
/// object is only had by asking the native library to mint a new
/// identifier. A handle that owns the sentinel owns nothing.
#[derive(Debug)]
pub struct Handle {
    id: i64,
}

impl Handle {
    /// The identifier this handle owns.
    pub closed spec fn spec_id(&self) -> i64 {
        self.id
    }

    /// The handle once it has let go of its identifier: it owns nothing.
    pub closed spec fn released(self) -> Handle {
        Handle { id: INVALID_ID }
    }

    /// Handles are told apart by their identifier alone.
    pub proof fn lemma_same_id_same_handle(a: Handle, b: Handle)
        requires
            a.spec_id() == b.spec_id(),
        ensures
            a == b,
    {
    }

    /// Takes ownership of `id`, which must not be the sentinel.
    pub fn try_new(id: i64) -> (result: Result<Handle, Error>)
        ensures
            id != INVALID_ID ==> result is Ok && result->Ok_0.spec_id() == id,
            id == INVALID_ID ==> result == Err::<Handle, Error>(Error::InvalidIdentifier { id }),
    {
        if id == INVALID_ID {
            Err(Error::InvalidIdentifier { id })
        } else {
            Ok(Handle { id })
        }
    }

    /// A handle that owns nothing.
    pub fn invalid() -> (handle: Handle)
        ensures
            handle.spec_id() == INVALID_ID,
    {
        Handle { id: INVALID_ID }
    }

    /// The identifier this handle owns.
    #[verifier::when_used_as_spec(spec_id)]
    pub fn id(&self) -> (id: i64)
        ensures
            id == self.spec_id(),
    {
        self.id
    }

    /// Whether the handle denotes a live object, given what the native
    /// library reports about its identifier. A handle that owns the
    /// sentinel is never valid.
    pub fn is_valid(&self, reported_valid: bool) -> (valid: bool)
        ensures
            valid == live(self.spec_id(), reported_valid),
    {
        self.id != INVALID_ID && reported_valid
    }

    /// Lets go of the identifier. Returns the identifier that the caller
    /// must now hand to the native release primitive, if any: the owned
    /// identifier, unless it is the sentinel or the native library no longer
    /// reports it valid. Afterwards the handle owns nothing, so that a
    /// second release finds nothing to hand out.
    pub fn release(&mut self, reported_valid: bool) -> (to_close: Option<i64>)
        ensures
            *final(self) == old(self).released(),
            final(self).spec_id() == INVALID_ID,
            to_close == to_release(old(self).spec_id(), reported_valid),
    {
        let id = self.id;
        self.id = INVALID_ID;
        if id != INVALID_ID && reported_valid {
            Some(id)
        } else {
            None
        }
    }
}

/// An identifier is handed to the native release primitive at most once:
/// a handle that has let go owns the sentinel, a second release of it hands
/// out nothing, whatever the native library reports by then, and leaves it
/// as it was.
pub proof fn lemma_released_at_most_once(handle: Handle, report: bool)
    ensures
        handle.released().spec_id() == INVALID_ID,
        to_release(handle.released().spec_id(), report) is None,
        handle.released().released() == handle.released(),
{
}

/// Letting go of an identifier that has gone stale hands out nothing: the
/// native library is not asked to release it, so no failure can arise.
pub proof fn lemma_stale_release_is_silent(id: i64)
    ensures
        to_release(id, false) is None,
{
}

} // verus!
