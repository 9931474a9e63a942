//! Identifiers and the kinds of object they may denote.

use vstd::prelude::*;

verus! {

/// The identifier that denotes no object at all.
pub const INVALID_ID: i64 = -1;

/// The category of object behind an identifier, as the native library
/// reports it.
#[derive(Clone, Copy, Debug, PartialEq, Eq, Structural)]
pub enum IdKind {
    /// Not an identifier the library knows.
    BadId,
    File,
    Group,
    Datatype,
    Dataspace,
    Dataset,
    Attribute,
    Reference,
    VirtualFileLayer,
    PropertyListClass,
    PropertyList,
    ErrorClass,
    ErrorMessage,
    ErrorStack,
}

/// Membership in a kind set. The empty set stands for "any kind".
pub open spec fn kind_in_set(kinds: Seq<IdKind>, kind: IdKind) -> bool {
    kinds.len() == 0 || kinds.contains(kind)
}

/// Whether an object class that lists `kinds` may wrap an identifier of
/// kind `kind`.
pub fn is_valid_id_type(kinds: &Vec<IdKind>, kind: IdKind) -> (accepted: bool)
    ensures
        accepted == kind_in_set(kinds@, kind),
{
    if kinds.len() == 0 {
        return true;
    }
    let mut i: usize = 0;
    while i < kinds.len()
        invariant
            i <= kinds.len(),
            forall|j: int| 0 <= j < i ==> kinds@[j] != kind,
        decreases kinds.len() - i,
    {
        if kinds[i] == kind {
            return true;
        }
        i += 1;
    }
    false
}

} // verus!
