use hdf5_handle::{to_cstring, NameCollector, ITER_CONTINUE};

#[test]
fn cstring_of_a_plain_name() {
    assert_eq!(to_cstring("abc"), Some(vec![b'a', b'b', b'c', 0]));
}

#[test]
fn cstring_of_the_empty_name() {
    assert_eq!(to_cstring(""), Some(vec![0]));
}

#[test]
fn cstring_keeps_utf8_bytes() {
    assert_eq!(to_cstring("é"), Some(vec![0xc3, 0xa9, 0]));
}

#[test]
fn name_with_a_nul_has_no_cstring() {
    assert_eq!(to_cstring("a\0b"), None);
    assert_eq!(to_cstring("\0"), None);
    assert_eq!(to_cstring("ab\0"), None);
}

#[test]
fn continue_code_is_zero() {
    assert_eq!(ITER_CONTINUE, 0);
}

#[test]
fn new_collector_is_empty() {
    let collector = NameCollector::new(5);
    assert_eq!(collector.id(), 5);
    assert_eq!(collector.into_names(), Vec::<String>::new());
}

#[test]
fn collector_keeps_names_in_order() {
    let mut collector = NameCollector::new(5);
    assert_eq!(collector.visit("b".to_string()), 0);
    assert_eq!(collector.visit("a".to_string()), 0);
    assert_eq!(collector.visit("c".to_string()), 0);
    assert_eq!(collector.id(), 5);
    assert_eq!(collector.into_names(), vec!["b".to_string(), "a".to_string(), "c".to_string()]);
}

#[test]
fn collector_drops_empty_names() {
    let mut collector = NameCollector::new(5);
    assert_eq!(collector.visit(String::new()), 0);
    assert_eq!(collector.visit("a".to_string()), 0);
    assert_eq!(collector.visit(String::new()), 0);
    assert_eq!(collector.into_names(), vec!["a".to_string()]);
}

#[test]
fn collector_does_not_remove_a_name_yielded_twice() {
    let mut collector = NameCollector::new(5);
    collector.visit("a".to_string());
    collector.visit("a".to_string());
    assert_eq!(collector.into_names(), vec!["a".to_string(), "a".to_string()]);
}

#[test]
fn collector_of_only_empty_names_is_empty() {
    let mut collector = NameCollector::new(5);
    collector.visit(String::new());
    collector.visit(String::new());
    assert!(collector.into_names().is_empty());
}
