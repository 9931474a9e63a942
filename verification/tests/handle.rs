use hdf5_handle::id::is_valid_id_type;
use hdf5_handle::{Error, Handle, IdKind, ObjectClass, PropertyList, INVALID_ID};

#[test]
fn sentinel_is_minus_one() {
    assert_eq!(INVALID_ID, -1);
}

#[test]
fn handle_owns_the_identifier_it_was_given() {
    assert_eq!(Handle::try_new(7).unwrap().id(), 7);
    assert_eq!(Handle::try_new(0).unwrap().id(), 0);
    assert_eq!(Handle::try_new(i64::MAX).unwrap().id(), i64::MAX);
}

#[test]
fn handle_rejects_the_sentinel() {
    assert_eq!(Handle::try_new(INVALID_ID).unwrap_err(), Error::InvalidIdentifier { id: -1 });
}

#[test]
fn invalid_handle_owns_the_sentinel() {
    let handle = Handle::invalid();
    assert_eq!(handle.id(), INVALID_ID);
    assert!(!handle.is_valid(true));
    assert!(!handle.is_valid(false));
}

#[test]
fn handle_is_valid_when_the_library_says_so() {
    let handle = Handle::try_new(12).unwrap();
    assert!(handle.is_valid(true));
    assert!(!handle.is_valid(false));
}

#[test]
fn release_hands_out_a_live_identifier() {
    let mut handle = Handle::try_new(12).unwrap();
    assert_eq!(handle.release(true), Some(12));
    assert_eq!(handle.id(), INVALID_ID);
}

#[test]
fn second_release_hands_out_nothing() {
    let mut handle = Handle::try_new(12).unwrap();
    assert_eq!(handle.release(true), Some(12));
    assert_eq!(handle.release(true), None);
    assert_eq!(handle.release(false), None);
    assert_eq!(handle.id(), INVALID_ID);
}

#[test]
fn release_of_a_stale_identifier_hands_out_nothing() {
    let mut handle = Handle::try_new(12).unwrap();
    assert_eq!(handle.release(false), None);
    assert_eq!(handle.id(), INVALID_ID);
    assert_eq!(handle.release(true), None);
}

#[test]
fn release_of_an_invalid_handle_hands_out_nothing() {
    let mut handle = Handle::invalid();
    assert_eq!(handle.release(true), None);
    assert_eq!(handle.release(false), None);
}

#[test]
fn empty_kind_set_accepts_any_kind() {
    assert!(is_valid_id_type(&vec![], IdKind::Group));
    assert!(is_valid_id_type(&vec![], IdKind::BadId));
}

#[test]
fn kind_set_accepts_its_members_only() {
    let kinds = vec![IdKind::Group, IdKind::File];
    assert!(is_valid_id_type(&kinds, IdKind::Group));
    assert!(is_valid_id_type(&kinds, IdKind::File));
    assert!(!is_valid_id_type(&kinds, IdKind::Dataset));
    assert!(!is_valid_id_type(&kinds, IdKind::BadId));
}

#[test]
fn property_list_class_metadata() {
    assert_eq!(PropertyList::name(), "property list");
    assert_eq!(PropertyList::valid_types(), vec![IdKind::PropertyList]);
}

#[test]
fn from_id_accepts_a_property_list_identifier() {
    let list = PropertyList::from_id(42, IdKind::PropertyList).unwrap();
    assert_eq!(list.id(), 42);
    assert_eq!(list.handle().id(), 42);
}

#[test]
fn from_id_rejects_other_kinds() {
    for kind in [
        IdKind::BadId,
        IdKind::File,
        IdKind::Group,
        IdKind::Datatype,
        IdKind::Dataspace,
        IdKind::Dataset,
        IdKind::Attribute,
        IdKind::Reference,
        IdKind::VirtualFileLayer,
        IdKind::PropertyListClass,
        IdKind::ErrorClass,
        IdKind::ErrorMessage,
        IdKind::ErrorStack,
    ] {
        let result = PropertyList::from_id(42, kind);
        assert_eq!(result.unwrap_err(), Error::InvalidIdentifier { id: 42 });
    }
}

#[test]
fn from_id_rejects_the_sentinel() {
    let result = PropertyList::from_id(INVALID_ID, IdKind::PropertyList);
    assert_eq!(result.unwrap_err(), Error::InvalidIdentifier { id: INVALID_ID });
}

#[test]
fn from_handle_wraps_without_looking() {
    let list = PropertyList::from_handle(Handle::invalid());
    assert_eq!(list.id(), INVALID_ID);
    let list = PropertyList::from_handle(Handle::try_new(3).unwrap());
    assert_eq!(list.id(), 3);
}

#[test]
fn handle_mut_reaches_the_wrapped_handle() {
    let mut list = PropertyList::from_id(42, IdKind::PropertyList).unwrap();
    assert_eq!(list.handle_mut().release(true), Some(42));
    assert_eq!(list.id(), INVALID_ID);
}

#[test]
fn invalid_list_wraps_the_sentinel() {
    let list = PropertyList::invalid();
    assert_eq!(list.id(), INVALID_ID);
    assert!(!list.is_valid(true));
}

#[test]
fn from_id_or_invalid_falls_back_to_the_invalid_list() {
    assert_eq!(PropertyList::from_id_or_invalid(42, IdKind::PropertyList).id(), 42);
    assert_eq!(PropertyList::from_id_or_invalid(42, IdKind::Dataset).id(), INVALID_ID);
    assert_eq!(PropertyList::from_id_or_invalid(42, IdKind::BadId).id(), INVALID_ID);
    assert_eq!(PropertyList::from_id_or_invalid(-1, IdKind::PropertyList).id(), INVALID_ID);
}

#[test]
fn copied_id_is_the_minted_identifier_or_the_sentinel() {
    assert_eq!(PropertyList::copied_id(&Ok(99)), 99);
    assert_eq!(PropertyList::copied_id(&Err(Error::NativeCall("x".to_string()))), INVALID_ID);
}

#[test]
fn equals_only_on_a_reply_of_one() {
    assert!(PropertyList::equals(&Ok(1)));
    assert!(!PropertyList::equals(&Ok(0)));
    assert!(!PropertyList::equals(&Ok(2)));
    assert!(!PropertyList::equals(&Ok(-1)));
    assert!(!PropertyList::equals(&Err(Error::NativeCall(String::new()))));
}

#[test]
fn has_reply_on_any_positive_reply() {
    assert!(PropertyList::has_reply(&Ok(1)));
    assert!(PropertyList::has_reply(&Ok(2)));
    assert!(!PropertyList::has_reply(&Ok(0)));
    assert!(!PropertyList::has_reply(&Ok(-1)));
    assert!(!PropertyList::has_reply(&Err(Error::NativeCall(String::new()))));
}

#[test]
fn refcount_is_the_reported_count_or_zero() {
    let list = PropertyList::from_id(42, IdKind::PropertyList).unwrap();
    assert_eq!(list.refcount(&Ok(1)), 1);
    assert_eq!(list.refcount(&Ok(3)), 3);
    assert_eq!(list.refcount(&Ok(i32::MAX)), 2147483647);
    assert_eq!(list.refcount(&Ok(0)), 0);
    assert_eq!(list.refcount(&Ok(-1)), 0);
    assert_eq!(list.refcount(&Err(Error::NativeCall(String::new()))), 0);
}

#[test]
fn description_shows_name_identifier_and_validity() {
    let list = PropertyList::from_id(42, IdKind::PropertyList).unwrap();
    let shown = list.describe(true);
    assert_eq!(shown.class_name, "property list");
    assert_eq!(shown.id, 42);
    assert!(shown.valid);
    assert!(!list.describe(false).valid);
    let shown = PropertyList::invalid().describe(true);
    assert_eq!(shown.id, INVALID_ID);
    assert!(!shown.valid);
}

#[test]
fn release_through_the_object() {
    let mut list = PropertyList::from_id(42, IdKind::PropertyList).unwrap();
    assert_eq!(list.release(true), Some(42));
    assert_eq!(list.id(), INVALID_ID);
    assert_eq!(list.release(true), None);
}
