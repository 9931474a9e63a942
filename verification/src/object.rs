//! Behaviour shared by every kind of wrapped native object.

use vstd::prelude::*;
use crate::error::Error;
use crate::handle::{live, to_release, Handle};
use crate::id::{is_valid_id_type, kind_in_set, IdKind, INVALID_ID};

verus! {

/// What a debug rendering of an object shows.
#[derive(Debug, PartialEq, Eq)]
pub struct Description {
    pub class_name: &'static str,
    pub id: i64,
    pub valid: bool,
}

/// Whether a class that lists `kinds` may wrap `id`, which the native
/// library reports to be of kind `kind`: the identifier is not the sentinel,
/// the library knows it, and its kind is one the class lists.
pub open spec fn accepts(kinds: Seq<IdKind>, id: i64, kind: IdKind) -> bool {
    id != INVALID_ID && kind != IdKind::BadId && kind_in_set(kinds, kind)
}

/// The reference count to show for a reply of the native count primitive:
/// the count it gave, or 0 where it failed.
pub open spec fn shown_refcount(reply: Result<i32, Error>) -> u32 {
    match reply {
        Ok(count) => if count > 0 {
            count as u32
        } else {
            0
        },
        Err(_) => 0,
    }
}

/// A class of wrapped native objects. A class supplies its name, the kinds
/// of identifier it accepts, and access to the handle it wraps; everything
/// else is shared.
pub trait ObjectClass: Sized {
    /// The handle inside the wrapper.
    spec fn spec_handle(&self) -> Handle;

    /// The kinds of identifier this class wraps; empty for "any".
    spec fn spec_valid_types() -> Seq<IdKind>;

    /// The human-readable name of the class.
    spec fn spec_name() -> Seq<char>;

    /// The human-readable name of the class.
    fn name() -> (name: &'static str)
        ensures
            name@ == Self::spec_name(),
    ;

    /// The kinds of identifier this class wraps; empty for "any".
    fn valid_types() -> (kinds: Vec<IdKind>)
        ensures
            kinds@ == Self::spec_valid_types(),
    ;

    /// Wraps a handle without looking at it.
    fn from_handle(handle: Handle) -> (object: Self)
        ensures
            object.spec_handle() == handle,
    ;

    /// The handle inside the wrapper.
    fn handle(&self) -> (handle: &Handle)
        ensures
            *handle == self.spec_handle(),
    ;

    /// The handle inside the wrapper, to change it in place.
    fn handle_mut(&mut self) -> (handle: &mut Handle)
        ensures
            *handle == old(self).spec_handle(),
            final(self).spec_handle() == *final(handle),
    ;

    /// Wraps the identifier `id`, which the native library reports to be of
    /// kind `kind`. Fails unless `id` is a live identifier of a kind this
    /// class accepts.
    fn from_id(id: i64, kind: IdKind) -> (result: Result<Self, Error>)
        ensures
            accepts(Self::spec_valid_types(), id, kind) ==> result is Ok
                && result->Ok_0.spec_handle().spec_id() == id,
            !accepts(Self::spec_valid_types(), id, kind) ==> result == Err::<Self, Error>(
                Error::InvalidIdentifier { id },
            ),
    {
        let kinds = Self::valid_types();
        if kind == IdKind::BadId || !is_valid_id_type(&kinds, kind) {
            return Err(Error::InvalidIdentifier { id });
        }
        match Handle::try_new(id) {
            Ok(handle) => Ok(Self::from_handle(handle)),
            Err(e) => Err(e),
        }
    }

    /// An object in the invalid state: it wraps the sentinel.
    fn invalid() -> (object: Self)
        ensures
            object.spec_handle().spec_id() == INVALID_ID,
    {
        Self::from_handle(Handle::invalid())
    }

    /// The identifier behind the object.
    fn id(&self) -> (id: i64)
        ensures
            id == self.spec_handle().spec_id(),
    {
        self.handle().id()
    }

    /// Whether the object is live, given what the native library reports
    /// about its identifier. An object in the invalid state is never live.
    fn is_valid(&self, reported_valid: bool) -> (valid: bool)
        ensures
            valid == live(self.spec_handle().spec_id(), reported_valid),
    {
        self.handle().is_valid(reported_valid)
    }

    /// The native reference count of the object, for diagnostics, given the
    /// reply of the native count primitive. A failed call counts as 0.
    fn refcount(&self, reply: &Result<i32, Error>) -> (count: u32)
        ensures
            count == shown_refcount(*reply),
    {
        match reply {
            Ok(count) => if *count > 0 {
                *count as u32
            } else {
                0
            },
            Err(_) => 0,
        }
    }

    /// What a debug rendering of the object shows: the class name, the
    /// identifier, and whether the object is live.
    fn describe(&self, reported_valid: bool) -> (shown: Description)
        ensures
            shown.class_name@ == Self::spec_name(),
            shown.id == self.spec_handle().spec_id(),
            shown.valid == live(self.spec_handle().spec_id(), reported_valid),
    {
        Description {
            class_name: Self::name(),
            id: self.id(),
            valid: self.is_valid(reported_valid),
        }
    }

    /// Gives up the identifier behind the object, at most once. Returns the
    /// identifier that the caller must now hand to the native release
    /// primitive, if any. Afterwards the object is in the invalid state.
    fn release(&mut self, reported_valid: bool) -> (to_close: Option<i64>)
        ensures
            final(self).spec_handle() == old(self).spec_handle().released(),
            final(self).spec_handle().spec_id() == INVALID_ID,
            to_close == to_release(old(self).spec_handle().spec_id(), reported_valid),
    {
        self.handle_mut().release(reported_valid)
    }
}

} // verus!
