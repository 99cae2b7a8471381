use reverse_lookup::errors::{DatabaseError, RedisError, SetnxReply, StorageError};
use reverse_lookup::record::{ReverseLookup, ReverseLookupNew};
use reverse_lookup::router::{
    after_key_get, after_key_set, after_push, conclude_database_find, conclude_database_insert,
    plan_insert, plan_lookup, DrainEntry, InsertPlan, LookupPlan, MerchantStorageScheme,
    PendingPush,
};

fn new_lookup() -> ReverseLookupNew {
    ReverseLookupNew {
        lookup_id: "lk_1".to_string(),
        sk_id: "sk_1".to_string(),
        pk_id: "pk_1".to_string(),
        source: "payment".to_string(),
    }
}

fn stored_lookup() -> ReverseLookup {
    ReverseLookup {
        lookup_id: "lk_1".to_string(),
        sk_id: "sk_1".to_string(),
        pk_id: "pk_1".to_string(),
        source: "payment".to_string(),
    }
}

#[test]
fn conversion_copies_the_four_fields() {
    assert_eq!(ReverseLookup::from(new_lookup()), stored_lookup());
    assert_eq!(new_lookup().to_record(), stored_lookup());
    let distinct = ReverseLookupNew {
        lookup_id: "a".to_string(),
        sk_id: "b".to_string(),
        pk_id: "c".to_string(),
        source: "d".to_string(),
    };
    let converted = ReverseLookup::from(distinct.clone());
    assert_eq!(converted.lookup_id, "a");
    assert_eq!(converted.sk_id, "b");
    assert_eq!(converted.pk_id, "c");
    assert_eq!(converted.source, "d");
    assert_eq!(converted.clone(), converted);
}

#[test]
fn plan_insert_durable_only_goes_to_database() {
    assert_eq!(
        plan_insert(new_lookup(), MerchantStorageScheme::PostgresOnly),
        InsertPlan::Database { lookup_id: "lk_1".to_string(), new: new_lookup() }
    );
}

#[test]
fn plan_insert_fast_path_derives_record_and_key() {
    assert_eq!(
        plan_insert(new_lookup(), MerchantStorageScheme::RedisKv),
        InsertPlan::KeyValue {
            key: "lk_1".to_string(),
            record: stored_lookup(),
            new: new_lookup(),
        }
    );
}

#[test]
fn database_insert_returns_the_inserted_record() {
    assert_eq!(
        conclude_database_insert("lk_1".to_string(), Ok(stored_lookup())),
        Ok(stored_lookup())
    );
}

#[test]
fn database_insert_unique_violation_is_duplicate_value() {
    assert_eq!(
        conclude_database_insert("lk_1".to_string(), Err(DatabaseError::UniqueViolation)),
        Err(StorageError::DuplicateValue {
            entity: "reverse_lookup",
            key: Some("lk_1".to_string()),
        })
    );
}

#[test]
fn database_insert_transport_failures_keep_their_kind() {
    assert_eq!(
        conclude_database_insert("lk_1".to_string(), Err(DatabaseError::ConnectionUnavailable)),
        Err(StorageError::DatabaseConnectionError)
    );
    assert_eq!(
        conclude_database_insert("lk_1".to_string(), Err(DatabaseError::QueryFailed)),
        Err(StorageError::DatabaseError(DatabaseError::QueryFailed))
    );
    assert_eq!(
        conclude_database_insert("lk_1".to_string(), Err(DatabaseError::NotFound)),
        Err(StorageError::DatabaseError(DatabaseError::NotFound))
    );
}

#[test]
fn key_set_leaves_instruction_on_partition_of_pk_id() {
    assert_eq!(
        after_key_set(stored_lookup(), new_lookup(), Ok(SetnxReply::KeySet)),
        Ok(PendingPush {
            entry: DrainEntry { partition_key: "pk_1".to_string(), insertable: new_lookup() },
            record: stored_lookup(),
        })
    );
}

#[test]
fn key_not_set_is_duplicate_value() {
    assert_eq!(
        after_key_set(stored_lookup(), new_lookup(), Ok(SetnxReply::KeyNotSet)),
        Err(StorageError::DuplicateValue {
            entity: "reverse_lookup",
            key: Some("lk_1".to_string()),
        })
    );
}

#[test]
fn fast_store_failure_on_set_is_kv_error() {
    for kind in [
        RedisError::ConnectionFailed,
        RedisError::DeserializationFailed,
        RedisError::NotFound,
    ] {
        assert_eq!(
            after_key_set(stored_lookup(), new_lookup(), Err(kind)),
            Err(StorageError::KVError)
        );
    }
}

#[test]
fn push_acknowledged_returns_record() {
    assert_eq!(after_push(stored_lookup(), Ok(())), Ok(stored_lookup()));
}

#[test]
fn push_failure_is_replication_error() {
    assert_eq!(
        after_push(stored_lookup(), Err(RedisError::ConnectionFailed)),
        Err(StorageError::ReplicationError)
    );
}

#[test]
fn plan_lookup_follows_scheme() {
    assert_eq!(plan_lookup(MerchantStorageScheme::PostgresOnly), LookupPlan::Database);
    assert_eq!(plan_lookup(MerchantStorageScheme::RedisKv), LookupPlan::KeyValueFirst);
}

#[test]
fn fast_store_hit_ends_lookup() {
    assert_eq!(after_key_get(Ok(stored_lookup())), Some(stored_lookup()));
}

#[test]
fn every_fast_store_failure_falls_back() {
    assert_eq!(after_key_get(Err(RedisError::NotFound)), None);
    assert_eq!(after_key_get(Err(RedisError::DeserializationFailed)), None);
    assert_eq!(after_key_get(Err(RedisError::ConnectionFailed)), None);
}

#[test]
fn database_find_returns_the_record() {
    assert_eq!(conclude_database_find("lk_1", Ok(stored_lookup())), Ok(stored_lookup()));
}

#[test]
fn database_find_missing_row_is_value_not_found() {
    assert_eq!(
        conclude_database_find("lk_missing", Err(DatabaseError::NotFound)),
        Err(StorageError::ValueNotFound(
            "No reverse lookup found for lookup_id = lk_missing".to_string()
        ))
    );
}

#[test]
fn database_find_transport_failures_keep_their_kind() {
    assert_eq!(
        conclude_database_find("lk_1", Err(DatabaseError::ConnectionUnavailable)),
        Err(StorageError::DatabaseConnectionError)
    );
    assert_eq!(
        conclude_database_find("lk_1", Err(DatabaseError::QueryFailed)),
        Err(StorageError::DatabaseError(DatabaseError::QueryFailed))
    );
    assert_eq!(
        conclude_database_find("lk_1", Err(DatabaseError::UniqueViolation)),
        Err(StorageError::DatabaseError(DatabaseError::UniqueViolation))
    );
}

#[test]
fn fallback_after_fast_store_failure_reports_durable_not_found() {
    let fast = after_key_get(Err(RedisError::ConnectionFailed));
    assert_eq!(fast, None);
    let res = conclude_database_find("lk_7", Err(DatabaseError::NotFound));
    assert!(matches!(&res, Err(e) if e.is_not_found()));
    assert_eq!(
        res,
        Err(StorageError::ValueNotFound(
            "No reverse lookup found for lookup_id = lk_7".to_string()
        ))
    );
}

#[test]
fn failure_constructors_and_predicates() {
    let missing = StorageError::value_not_found("lk_x");
    assert_eq!(
        missing,
        StorageError::ValueNotFound("No reverse lookup found for lookup_id = lk_x".to_string())
    );
    assert!(missing.is_not_found());
    assert!(!missing.is_duplicate());
    let taken = StorageError::duplicate_value("lk_x".to_string());
    assert_eq!(
        taken,
        StorageError::DuplicateValue { entity: "reverse_lookup", key: Some("lk_x".to_string()) }
    );
    assert!(taken.is_duplicate());
    assert!(!taken.is_not_found());
    assert!(!StorageError::KVError.is_duplicate());
    assert!(!StorageError::ReplicationError.is_not_found());
    assert_ne!(StorageError::KVError, StorageError::ReplicationError);
    assert_eq!(
        StorageError::from_insert("k".to_string(), DatabaseError::UniqueViolation),
        StorageError::DuplicateValue { entity: "reverse_lookup", key: Some("k".to_string()) }
    );
    assert_eq!(
        StorageError::from_find("k", DatabaseError::NotFound),
        StorageError::ValueNotFound("No reverse lookup found for lookup_id = k".to_string())
    );
}
