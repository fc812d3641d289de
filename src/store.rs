use vstd::prelude::*;

verus! {

/// How an insert of a row with a natural key went.
#[derive(Clone, Copy, Debug, PartialEq, Eq, Structural)]
pub enum InsertOutcome {
    /// The row is new and was stored.
    Inserted,
    /// A row with the same natural key is already stored; nothing changed.
    AlreadyExists,
}

/// A failure reported by the store for an insert.
pub enum StorageError {
    /// A row with the same natural key is already stored.
    UniqueViolation,
    /// Any other failure, with its message.
    Other(String),
}

/// The outcome that an insert's result stands for: a uniqueness conflict
/// is a benign skip, any other failure is fatal.
pub open spec fn insert_outcome(r: Result<(), StorageError>) -> Result<InsertOutcome, String> {
    match r {
        Ok(()) => Ok(InsertOutcome::Inserted),
        Err(StorageError::UniqueViolation) => Ok(InsertOutcome::AlreadyExists),
        Err(StorageError::Other(m)) => Err(m),
    }
}

/// Reads the result of an insert: a uniqueness conflict on the natural key
/// is `AlreadyExists`, not an error; any other failure is returned.
pub fn classify_insert(r: Result<(), StorageError>) -> (o: Result<InsertOutcome, String>)
    ensures
        o == insert_outcome(r),
{
    match r {
        Ok(()) => Ok(InsertOutcome::Inserted),
        Err(StorageError::UniqueViolation) => Ok(InsertOutcome::AlreadyExists),
        Err(StorageError::Other(m)) => Err(m),
    }
}

/// Whether a photo is stored, from a lookup of the pictures with its id:
/// a failed lookup counts as not stored, so that the insert is tried and
/// the uniqueness rule settles it.
pub fn exists_from_lookup(found: Result<usize, String>) -> (b: bool)
    ensures
        b == (found matches Ok(n) && n > 0),
{
    match found {
        Ok(n) => n != 0,
        Err(_) => false,
    }
}

/// A table whose rows have a unique natural key, as a map from key to row:
/// an insert stores a row under a new key, and is refused as a uniqueness
/// violation, leaving the table unchanged, under a key already present.
pub open spec fn table_insert<R>(t: Map<Seq<char>, R>, key: Seq<char>, row: R) -> (Map<Seq<char>, R>, Result<(), StorageError>) {
    if t.contains_key(key) {
        (t, Err(StorageError::UniqueViolation))
    } else {
        (t.insert(key, row), Ok(()))
    }
}

/// Idempotent insert: inserting the same row twice leaves one row under its
/// key; the second insert is `AlreadyExists`, not a failure, and the first
/// is `Inserted` unless the key was there before.
pub proof fn lemma_insert_twice<R>(t: Map<Seq<char>, R>, key: Seq<char>, row: R)
    ensures
        ({
            let (t1, r1) = table_insert(t, key, row);
            let (t2, r2) = table_insert(t1, key, row);
            &&& insert_outcome(r1) == if t.contains_key(key) {
                Ok::<InsertOutcome, String>(InsertOutcome::AlreadyExists)
            } else {
                Ok(InsertOutcome::Inserted)
            }
            &&& insert_outcome(r2) == Ok::<InsertOutcome, String>(InsertOutcome::AlreadyExists)
            &&& t2 == t1
            &&& t2.dom() == t.dom().insert(key)
            &&& !t.contains_key(key) ==> t2[key] == row
        }),
{
    let (t1, r1) = table_insert(t, key, row);
    if t.contains_key(key) {
        assert(t.dom().insert(key) == t.dom());
    }
}

} // verus!
