//! What the backing stores report, and the failures that callers see.
use vstd::prelude::*;
use vstd::string::*;

verus! {

/// A failed call to the durable store.
#[derive(Debug, Clone, Copy, PartialEq, Eq, Structural)]
pub enum DatabaseError {
    /// No connection could be acquired.
    ConnectionUnavailable,
    /// No row has the key that was asked for.
    NotFound,
    /// A row with the same unique key is already there.
    UniqueViolation,
    /// The query could not be carried out.
    QueryFailed,
}

/// A failed call to the fast store or to the drain stream.
#[derive(Debug, Clone, Copy, PartialEq, Eq, Structural)]
pub enum RedisError {
    /// The key holds no value.
    NotFound,
    /// The value under the key could not be read back as a record.
    DeserializationFailed,
    /// The store could not be reached, or did not answer in time.
    ConnectionFailed,
}

/// The answer of the fast store to a conditional set.
#[derive(Debug, Clone, Copy, PartialEq, Eq, Structural)]
pub enum SetnxReply {
    /// The key was free and now holds the value.
    KeySet,
    /// The key held a value already, which was left as it was.
    KeyNotSet,
}

/// A failed creation or retrieval.
#[derive(Debug, PartialEq, Eq)]
pub enum StorageError {
    /// The durable store failed; the kind of failure is kept.
    DatabaseError(DatabaseError),
    /// No connection to the durable store could be acquired.
    DatabaseConnectionError,
    /// No store that the scheme consults holds the record.
    ValueNotFound(String),
    /// A record with the same key exists already.
    DuplicateValue { entity: &'static str, key: Option<String> },
    /// The fast store failed.
    KVError,
    /// The record is in the fast store, but its replication instruction
    /// could not be pushed to the drain stream.
    ReplicationError,
}

/// A `StorageError` as a mathematical value.
pub ghost enum Failure {
    DatabaseError(DatabaseError),
    DatabaseConnectionError,
    ValueNotFound(Seq<char>),
    DuplicateValue { entity: Seq<char>, key: Option<Seq<char>> },
    KVError,
    ReplicationError,
}

impl View for StorageError {
    type V = Failure;

    open spec fn view(&self) -> Failure {
        match *self {
            StorageError::DatabaseError(kind) => Failure::DatabaseError(kind),
            StorageError::DatabaseConnectionError => Failure::DatabaseConnectionError,
            StorageError::ValueNotFound(message) => Failure::ValueNotFound(message@),
            StorageError::DuplicateValue { entity, key } => Failure::DuplicateValue {
                entity: entity@,
                key: match key {
                    Some(k) => Some(k@),
                    None => None,
                },
            },
            StorageError::KVError => Failure::KVError,
            StorageError::ReplicationError => Failure::ReplicationError,
        }
    }
}

/// The text of a not-found failure: a fixed sentence, then the identifier.
pub open spec fn not_found_message(lookup_id: Seq<char>) -> Seq<char> {
    "No reverse lookup found for lookup_id = "@ + lookup_id
}

/// The failure of a retrieval that found nothing under `lookup_id`.
pub open spec fn not_found(lookup_id: Seq<char>) -> Failure {
    Failure::ValueNotFound(not_found_message(lookup_id))
}

/// The failure of a creation whose `lookup_id` is taken.
pub open spec fn duplicate(lookup_id: Seq<char>) -> Failure {
    Failure::DuplicateValue { entity: "reverse_lookup"@, key: Some(lookup_id) }
}

/// What a failed insert into the durable store becomes for the caller.
pub open spec fn insert_failure(lookup_id: Seq<char>, kind: DatabaseError) -> Failure {
    match kind {
        DatabaseError::UniqueViolation => duplicate(lookup_id),
        DatabaseError::ConnectionUnavailable => Failure::DatabaseConnectionError,
        _ => Failure::DatabaseError(kind),
    }
}

/// What a failed find in the durable store becomes for the caller.
pub open spec fn find_failure(lookup_id: Seq<char>, kind: DatabaseError) -> Failure {
    match kind {
        DatabaseError::NotFound => not_found(lookup_id),
        DatabaseError::ConnectionUnavailable => Failure::DatabaseConnectionError,
        _ => Failure::DatabaseError(kind),
    }
}

impl StorageError {
    /// The not-found failure that names `lookup_id`.
    pub fn value_not_found(lookup_id: &str) -> (res: StorageError)
        ensures
            res@ == not_found(lookup_id@),
    {
        let message = String::from_str("No reverse lookup found for lookup_id = ").concat(
            lookup_id,
        );
        StorageError::ValueNotFound(message)
    }

    /// The duplicate-value failure that names `lookup_id`.
    pub fn duplicate_value(lookup_id: String) -> (res: StorageError)
        ensures
            res@ == duplicate(lookup_id@),
    {
        StorageError::DuplicateValue { entity: "reverse_lookup", key: Some(lookup_id) }
    }

    /// The failure that a caller sees when an insert into the durable store
    /// for `lookup_id` failed with `kind`.
    pub fn from_insert(lookup_id: String, kind: DatabaseError) -> (res: StorageError)
        ensures
            res@ == insert_failure(lookup_id@, kind),
    {
        match kind {
            DatabaseError::UniqueViolation => StorageError::duplicate_value(lookup_id),
            DatabaseError::ConnectionUnavailable => StorageError::DatabaseConnectionError,
            DatabaseError::NotFound => StorageError::DatabaseError(kind),
            DatabaseError::QueryFailed => StorageError::DatabaseError(kind),
        }
    }

    /// The failure that a caller sees when a find in the durable store for
    /// `lookup_id` failed with `kind`.
    pub fn from_find(lookup_id: &str, kind: DatabaseError) -> (res: StorageError)
        ensures
            res@ == find_failure(lookup_id@, kind),
    {
        match kind {
            DatabaseError::NotFound => StorageError::value_not_found(lookup_id),
            DatabaseError::ConnectionUnavailable => StorageError::DatabaseConnectionError,
            DatabaseError::UniqueViolation => StorageError::DatabaseError(kind),
            DatabaseError::QueryFailed => StorageError::DatabaseError(kind),
        }
    }

    /// Whether this is the failure of a retrieval that found nothing.
    pub fn is_not_found(&self) -> (res: bool)
        ensures
            res == (self@ is ValueNotFound),
    {
        match self {
            StorageError::ValueNotFound(_) => true,
            _ => false,
        }
    }

    /// Whether this is the failure of a creation whose key is taken.
    pub fn is_duplicate(&self) -> (res: bool)
        ensures
            res == (self@ is DuplicateValue),
    {
        match self {
            StorageError::DuplicateValue { .. } => true,
            _ => false,
        }
    }
}

} // verus!
