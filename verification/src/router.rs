//! The decisions of creation and retrieval, apart from the stores.
//!
//! Each operation is a short exchange with the backing stores. The functions
//! here take what a store answered and say what is done next, or what the
//! caller gets. Whoever holds the stores carries out the calls in between.
use vstd::prelude::*;
use crate::errors::{duplicate, find_failure, insert_failure, DatabaseError, Failure, RedisError, SetnxReply, StorageError};
use crate::record::{Entry, ReverseLookup, ReverseLookupNew};

verus! {

/// Where the records of a merchant are kept.
#[derive(Debug, Clone, Copy, PartialEq, Eq, Structural)]
pub enum MerchantStorageScheme {
    /// In the durable store alone.
    PostgresOnly,
    /// In the fast store first, replicated to the durable store later.
    RedisKv,
}

/// An instruction for the drain stream: insert the record of `insertable`
/// into the durable store. Instructions with one `partition_key` are applied
/// in the order in which they were pushed.
#[derive(Debug, PartialEq, Eq)]
pub struct DrainEntry {
    pub partition_key: String,
    pub insertable: ReverseLookupNew,
}

/// A `DrainEntry` as a mathematical value.
pub ghost struct DrainItem {
    pub partition_key: Seq<char>,
    pub insertable: Entry,
}

impl View for DrainEntry {
    type V = DrainItem;

    open spec fn view(&self) -> DrainItem {
        DrainItem { partition_key: self.partition_key@, insertable: self.insertable@ }
    }
}

impl Clone for DrainEntry {
    fn clone(&self) -> (res: Self)
        ensures
            res@ == self@,
    {
        DrainEntry {
            partition_key: self.partition_key.clone(),
            insertable: self.insertable.clone(),
        }
    }
}

/// The instruction that replicates the creation of `new`.
pub open spec fn replication_of(new: Entry) -> DrainItem {
    DrainItem { partition_key: new.pk_id, insertable: new }
}

/// The first call of a creation.
#[derive(Debug, PartialEq, Eq)]
pub enum InsertPlan {
    /// Insert `new` into the durable store over a write connection.
    Database { lookup_id: String, new: ReverseLookupNew },
    /// Set `key` to `record` in the fast store unless the key is taken.
    KeyValue { key: String, record: ReverseLookup, new: ReverseLookupNew },
}

/// A record that the fast store has taken and whose replication instruction
/// is still to be pushed.
#[derive(Debug, PartialEq, Eq)]
pub struct PendingPush {
    pub entry: DrainEntry,
    pub record: ReverseLookup,
}

/// The first call of a retrieval.
#[derive(Debug, Clone, Copy, PartialEq, Eq, Structural)]
pub enum LookupPlan {
    /// Find the record in the durable store over a read connection.
    Database,
    /// Ask the fast store, and the durable store if that gives no record.
    KeyValueFirst,
}

/// What a creation does first under `scheme`. Under the fast-path scheme the
/// candidate record is derived here, before any store is touched.
pub fn plan_insert(new: ReverseLookupNew, scheme: MerchantStorageScheme) -> (plan: InsertPlan)
    ensures
        match scheme {
            MerchantStorageScheme::PostgresOnly => plan matches InsertPlan::Database {
                lookup_id,
                new: request,
            } && lookup_id@ == new@.lookup_id && request@ == new@,
            MerchantStorageScheme::RedisKv => plan matches InsertPlan::KeyValue {
                key,
                record,
                new: request,
            } && key@ == new@.lookup_id && record@ == new@ && request@ == new@,
        },
{
    match scheme {
        MerchantStorageScheme::PostgresOnly => {
            let lookup_id = new.lookup_id.clone();
            InsertPlan::Database { lookup_id, new }
        },
        MerchantStorageScheme::RedisKv => {
            let record = new.to_record();
            let key = record.lookup_id.clone();
            InsertPlan::KeyValue { key, record, new }
        },
    }
}

/// Ends a creation under the durable-only scheme: the inserted record as the
/// store returned it, or the store's failure with its kind kept. A violated
/// unique key becomes the duplicate-value failure that names `lookup_id`.
pub fn conclude_database_insert(
    lookup_id: String,
    reply: Result<ReverseLookup, DatabaseError>,
) -> (res: Result<ReverseLookup, StorageError>)
    ensures
        match reply {
            Ok(inserted) => res == Ok::<ReverseLookup, StorageError>(inserted),
            Err(kind) => res matches Err(e) && e@ == insert_failure(lookup_id@, kind),
        },
{
    match reply {
        Ok(inserted) => Ok(inserted),
        Err(kind) => Err(StorageError::from_insert(lookup_id, kind)),
    }
}

/// Decides on the fast store's answer to the conditional set. A key that was
/// newly set leaves the replication instruction to push, on the partition of
/// the record's `pk_id`. A key that was taken ends the creation with the
/// duplicate-value failure that names it, and any other failure of the fast
/// store ends it with the key-value failure.
pub fn after_key_set(
    record: ReverseLookup,
    new: ReverseLookupNew,
    reply: Result<SetnxReply, RedisError>,
) -> (res: Result<PendingPush, StorageError>)
    ensures
        match reply {
            Ok(SetnxReply::KeySet) => res matches Ok(pending) && pending.record == record
                && pending.entry@ == (DrainItem {
                partition_key: record@.pk_id,
                insertable: new@,
            }),
            Ok(SetnxReply::KeyNotSet) => res matches Err(e) && e@ == duplicate(
                record@.lookup_id,
            ),
            Err(_) => res matches Err(e) && e@ == Failure::KVError,
        },
{
    match reply {
        Ok(SetnxReply::KeySet) => {
            let partition_key = record.pk_id.clone();
            Ok(PendingPush { entry: DrainEntry { partition_key, insertable: new }, record })
        },
        Ok(SetnxReply::KeyNotSet) => Err(StorageError::duplicate_value(record.lookup_id)),
        Err(_) => Err(StorageError::KVError),
    }
}

/// Ends a creation under the fast-path scheme: the record, if its replication
/// instruction was pushed, else the replication failure.
pub fn after_push(record: ReverseLookup, reply: Result<(), RedisError>) -> (res: Result<
    ReverseLookup,
    StorageError,
>)
    ensures
        match reply {
            Ok(_) => res == Ok::<ReverseLookup, StorageError>(record),
            Err(_) => res matches Err(e) && e@ == Failure::ReplicationError,
        },
{
    match reply {
        Ok(_) => Ok(record),
        Err(_) => Err(StorageError::ReplicationError),
    }
}

/// What a retrieval does first under `scheme`.
pub fn plan_lookup(scheme: MerchantStorageScheme) -> (plan: LookupPlan)
    ensures
        plan == match scheme {
            MerchantStorageScheme::PostgresOnly => LookupPlan::Database,
            MerchantStorageScheme::RedisKv => LookupPlan::KeyValueFirst,
        },
{
    match scheme {
        MerchantStorageScheme::PostgresOnly => LookupPlan::Database,
        MerchantStorageScheme::RedisKv => LookupPlan::KeyValueFirst,
    }
}

/// Decides on the fast store's answer to a get: a record ends the retrieval,
/// and every failure, of whatever kind, sends it on to the durable store.
pub fn after_key_get(reply: Result<ReverseLookup, RedisError>) -> (res: Option<ReverseLookup>)
    ensures
        match reply {
            Ok(found) => res == Some(found),
            Err(_) => res is None,
        },
{
    match reply {
        Ok(found) => Some(found),
        Err(_) => None,
    }
}

/// Ends a retrieval at the durable store: the record as the store returned
/// it, or the store's failure with its kind kept. A missing row becomes the
/// not-found failure that names `lookup_id`.
pub fn conclude_database_find(lookup_id: &str, reply: Result<ReverseLookup, DatabaseError>) -> (res:
    Result<ReverseLookup, StorageError>)
    ensures
        match reply {
            Ok(found) => res == Ok::<ReverseLookup, StorageError>(found),
            Err(kind) => res matches Err(e) && e@ == find_failure(lookup_id@, kind),
        },
{
    match reply {
        Ok(found) => Ok(found),
        Err(kind) => Err(StorageError::from_find(lookup_id, kind)),
    }
}

} // verus!
