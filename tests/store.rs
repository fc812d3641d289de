use std::collections::HashMap;
use whlp::store::{classify_insert, exists_from_lookup, InsertOutcome, StorageError};

fn insert(table: &mut HashMap<String, String>, key: &str, row: &str) -> Result<(), StorageError> {
    if table.contains_key(key) {
        Err(StorageError::UniqueViolation)
    } else {
        table.insert(key.to_string(), row.to_string());
        Ok(())
    }
}

#[test]
fn inserting_twice_stores_one_row() {
    let mut table = HashMap::new();
    let first = classify_insert(insert(&mut table, "208", "Bamiyan"));
    let second = classify_insert(insert(&mut table, "208", "Bamiyan"));
    assert_eq!(first, Ok(InsertOutcome::Inserted));
    assert_eq!(second, Ok(InsertOutcome::AlreadyExists));
    assert_eq!(table.len(), 1);
}

#[test]
fn other_storage_error_is_fatal() {
    assert_eq!(
        classify_insert(Err(StorageError::Other("connection lost".to_string()))),
        Err("connection lost".to_string())
    );
}

#[test]
fn failed_lookup_counts_as_not_stored() {
    assert!(exists_from_lookup(Ok(1)));
    assert!(exists_from_lookup(Ok(3)));
    assert!(!exists_from_lookup(Ok(0)));
    assert!(!exists_from_lookup(Err("timeout".to_string())));
}
