use peer_registry::storage::Storage;

#[test]
fn init_idempotent() {
    let mut s = Storage::new();
    assert_eq!(s.init(), Ok(()));
    assert_eq!(s.init(), Ok(()));
    assert_eq!(s.contains("p".to_string()), Ok(false));
}

#[test]
fn contains_on_empty_store() {
    let s = Storage::new();
    assert_eq!(s.contains("anyone".to_string()), Ok(false));
}

#[test]
fn add_then_contains() {
    let mut s = Storage::new();
    assert_eq!(s.add("p".to_string(), true), Ok(()));
    assert_eq!(s.contains("p".to_string()), Ok(true));
    assert_eq!(s.contains("q".to_string()), Ok(false));
}

#[test]
fn add_overwrites_existing_record() {
    let mut s = Storage::new();
    assert_eq!(s.add("p".to_string(), true), Ok(()));
    // Upsert semantics: the second write replaces the record, and a record
    // with the flag cleared reads exactly as an absent one.
    assert_eq!(s.add("p".to_string(), false), Ok(()));
    assert_eq!(s.contains("p".to_string()), Ok(false));
    assert_eq!(s.add("p".to_string(), true), Ok(()));
    assert_eq!(s.contains("p".to_string()), Ok(true));
}

#[test]
fn delete_absent_is_ok() {
    let mut s = Storage::new();
    assert_eq!(s.delete("p".to_string()), Ok(()));
}

#[test]
fn delete_removes_only_its_key() {
    let mut s = Storage::new();
    assert_eq!(s.add("p".to_string(), true), Ok(()));
    assert_eq!(s.add("q".to_string(), true), Ok(()));
    assert_eq!(s.delete("p".to_string()), Ok(()));
    assert_eq!(s.contains("p".to_string()), Ok(false));
    assert_eq!(s.contains("q".to_string()), Ok(true));
}
