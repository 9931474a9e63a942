//! Property lists.

use vstd::prelude::*;
use vstd::string::*;
use crate::error::Error;
use crate::handle::{live, Handle};
use crate::id::{IdKind, INVALID_ID};
use crate::names::{c_string, encodable, to_cstring, NameCollector};
use crate::object::{accepts, ObjectClass};

verus! {

/// A property list of the native library.
///
/// A list is either valid, when it wraps a live identifier, or invalid,
/// when it wraps the sentinel. A copy of a list wraps an identifier of its
/// own, which the native library mints; two lists are equal when the native
/// library finds their contents equal, whatever their identifiers.
#[derive(Debug)]
pub struct PropertyList(Handle);

impl View for PropertyList {
    type V = i64;

    /// The identifier that the list wraps.
    open spec fn view(&self) -> i64 {
        self.spec_handle().spec_id()
    }
}

impl ObjectClass for PropertyList {
    closed spec fn spec_handle(&self) -> Handle {
        self.0
    }

    open spec fn spec_name() -> Seq<char> {
        "property list"@
    }

    open spec fn spec_valid_types() -> Seq<IdKind> {
        seq![IdKind::PropertyList]
    }

    fn name() -> (name: &'static str) {
        "property list"
    }

    fn valid_types() -> (kinds: Vec<IdKind>) {
        let mut kinds = Vec::new();
        kinds.push(IdKind::PropertyList);
        assert(kinds@ =~= seq![IdKind::PropertyList]);
        kinds
    }

    fn from_handle(handle: Handle) -> (object: Self) {
        PropertyList(handle)
    }

    fn handle(&self) -> (handle: &Handle) {
        &self.0
    }

    fn handle_mut(&mut self) -> (handle: &mut Handle) {
        &mut self.0
    }
}

/// What the owner of a list must do to learn whether it has a property.
#[derive(Debug, PartialEq, Eq)]
pub enum HasStep {
    /// The answer is known without asking the native library.
    Known(bool),
    /// Ask the native library whether the list `id` has an entry called
    /// `name`, a NUL-terminated C string.
    Ask { id: i64, name: Vec<u8> },
}

/// The identifier that a copy request produced: the one that the native
/// copy primitive minted, or the sentinel where it failed.
pub open spec fn copied(reply: Result<i64, Error>) -> i64 {
    match reply {
        Ok(id) => id,
        Err(_) => INVALID_ID,
    }
}

/// The identifier that a list wraps after an attempt to wrap `id`, which
/// the native library reports to be of kind `kind`: `id` where it is an
/// identifier of a property list, the sentinel otherwise.
pub open spec fn adopted(id: i64, kind: IdKind) -> i64 {
    if id != INVALID_ID && kind == IdKind::PropertyList {
        id
    } else {
        INVALID_ID
    }
}

/// Whether the native content-equality primitive found two lists equal. A
/// failed call counts as "not equal".
pub open spec fn found_equal(reply: Result<i32, Error>) -> bool {
    reply matches Ok(code) && code == 1
}

/// Whether the native existence primitive found the property asked about. A
/// failed call counts as "absent".
pub open spec fn found_present(reply: Result<i32, Error>) -> bool {
    reply matches Ok(code) && code > 0
}

impl PropertyList {
    /// The identifier that a copy of a list is to wrap, given the reply of
    /// the native copy primitive.
    pub fn copied_id(reply: &Result<i64, Error>) -> (id: i64)
        ensures
            id == copied(*reply),
    {
        match reply {
            Ok(id) => *id,
            Err(_) => INVALID_ID,
        }
    }

    /// Wraps `id`, which the native library reports to be of kind `kind`,
    /// or yields an invalid list where `from_id` would fail.
    pub fn from_id_or_invalid(id: i64, kind: IdKind) -> (list: PropertyList)
        ensures
            list@ == adopted(id, kind),
    {
        proof {
            lemma_accepts_property_lists_only(id, kind);
        }
        match PropertyList::from_id(id, kind) {
            Ok(list) => list,
            Err(_) => PropertyList::invalid(),
        }
    }

    /// Whether two lists are equal, given the reply of the native
    /// content-equality primitive for their identifiers.
    pub fn equals(reply: &Result<i32, Error>) -> (equal: bool)
        ensures
            equal == found_equal(*reply),
    {
        match reply {
            Ok(code) => *code == 1,
            Err(_) => false,
        }
    }

    /// Starts the query whether the list has a property called `property`.
    /// A name that cannot be encoded as a C string counts as absent, and
    /// the native library is not asked.
    pub fn has(&self, property: &str) -> (step: HasStep)
        ensures
            encodable(property.spec_bytes()) ==> (step matches HasStep::Ask { id, name } && id
                == self@ && name@ == c_string(property.spec_bytes())),
            !encodable(property.spec_bytes()) ==> step == HasStep::Known(false),
    {
        match to_cstring(property) {
            Some(name) => HasStep::Ask { id: self.id(), name },
            None => HasStep::Known(false),
        }
    }

    /// Ends the query that `has` started, given the reply of the native
    /// existence primitive.
    pub fn has_reply(reply: &Result<i32, Error>) -> (present: bool)
        ensures
            present == found_present(*reply),
    {
        match reply {
            Ok(code) => *code > 0,
            Err(_) => false,
        }
    }

    /// Starts the enumeration of the list's property names: the collector
    /// to hand every name that the native iteration yields for this list.
    pub fn properties(&self) -> (collector: NameCollector)
        ensures
            collector.spec_id() == self@,
            collector@ == Seq::<Seq<char>>::empty(),
    {
        NameCollector::new(self.id())
    }
}

/// A property list wraps exactly the identifiers that are not the sentinel
/// and that the native library reports to be property lists.
pub proof fn lemma_accepts_property_lists_only(id: i64, kind: IdKind)
    ensures
        accepts(PropertyList::spec_valid_types(), id, kind) <==> id != INVALID_ID && kind
            == IdKind::PropertyList,
{
    let kinds = PropertyList::spec_valid_types();
    assert(kinds.len() == 1 && kinds[0] == IdKind::PropertyList);
}

/// A list that was created is not in the invalid state: it is live exactly
/// when the native library reports its identifier valid.
pub proof fn lemma_created_list_is_valid(id: i64, kind: IdKind, reported_valid: bool)
    requires
        accepts(PropertyList::spec_valid_types(), id, kind),
    ensures
        live(id, reported_valid) == reported_valid,
{
}

/// A copy wraps the identifier that the native library minted for it, never
/// the original's own: the two lists share an identifier only where the
/// native library hands out the same one again.
pub proof fn lemma_copy_wraps_the_minted_identifier(original: i64, minted: i64)
    requires
        minted != INVALID_ID,
    ensures
        adopted(copied(Ok(minted)), IdKind::PropertyList) == minted,
        minted != original ==> adopted(copied(Ok(minted)), IdKind::PropertyList) != original,
        forall|reported_valid: bool|
            live(adopted(copied(Ok(minted)), IdKind::PropertyList), reported_valid)
                == reported_valid,
{
}

/// A copy that the native library failed to make, or that is not a property
/// list, is in the invalid state.
pub proof fn lemma_failed_copy_is_invalid(reply: Result<i64, Error>, kind: IdKind)
    requires
        reply is Err || kind != IdKind::PropertyList,
    ensures
        adopted(copied(reply), kind) == INVALID_ID,
        forall|reported_valid: bool| !live(adopted(copied(reply), kind), reported_valid),
{
}

/// A property that the native library does not find, or cannot look for, is
/// not had.
pub proof fn lemma_absent_property_is_not_had(reply: Result<i32, Error>)
    requires
        reply is Err || reply == Ok::<i32, Error>(0),
    ensures
        !found_present(reply),
{
}

} // verus!
