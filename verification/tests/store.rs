use reverse_lookup::errors::StorageError;
use reverse_lookup::interface::ReverseLookupInterface;
use reverse_lookup::record::{ReverseLookup, ReverseLookupNew};
use reverse_lookup::router::{DrainEntry, MerchantStorageScheme};
use reverse_lookup::store::Store;

fn request(lookup_id: &str, sk_id: &str, pk_id: &str, source: &str) -> ReverseLookupNew {
    ReverseLookupNew {
        lookup_id: lookup_id.to_string(),
        sk_id: sk_id.to_string(),
        pk_id: pk_id.to_string(),
        source: source.to_string(),
    }
}

fn record(lookup_id: &str, sk_id: &str, pk_id: &str, source: &str) -> ReverseLookup {
    ReverseLookup {
        lookup_id: lookup_id.to_string(),
        sk_id: sk_id.to_string(),
        pk_id: pk_id.to_string(),
        source: source.to_string(),
    }
}

fn duplicate(lookup_id: &str) -> StorageError {
    StorageError::DuplicateValue { entity: "reverse_lookup", key: Some(lookup_id.to_string()) }
}

fn missing(lookup_id: &str) -> StorageError {
    StorageError::ValueNotFound(format!("No reverse lookup found for lookup_id = {}", lookup_id))
}

#[test]
fn fast_path_create_echoes_record_and_queues_one_instruction() {
    let mut store = Store::new();
    let created = store.insert_reverse_lookup(
        request("lk_1", "sk_1", "pk_1", "payment"),
        MerchantStorageScheme::RedisKv,
    );
    assert_eq!(created, Ok(record("lk_1", "sk_1", "pk_1", "payment")));
    assert_eq!(store.drain_len(), 1);
    assert_eq!(
        store.drain_entry(0),
        Some(DrainEntry {
            partition_key: "pk_1".to_string(),
            insertable: request("lk_1", "sk_1", "pk_1", "payment"),
        })
    );
    assert_eq!(store.drain_entry(1), None);
    assert_eq!(store.stored("lk_1"), None);
}

#[test]
fn fast_path_create_twice_is_refused_without_second_instruction() {
    let mut store = Store::new();
    let first = store.insert_reverse_lookup(
        request("lk_1", "sk_1", "pk_1", "payment"),
        MerchantStorageScheme::RedisKv,
    );
    assert!(first.is_ok());
    let second = store.insert_reverse_lookup(
        request("lk_1", "sk_1", "pk_1", "payment"),
        MerchantStorageScheme::RedisKv,
    );
    assert_eq!(second, Err(duplicate("lk_1")));
    assert_eq!(store.drain_len(), 1);
}

#[test]
fn duplicate_never_overwrites_the_first_record() {
    let mut store = Store::new();
    store
        .insert_reverse_lookup(
            request("lk_1", "sk_1", "pk_1", "payment"),
            MerchantStorageScheme::RedisKv,
        )
        .unwrap();
    let second = store.insert_reverse_lookup(
        request("lk_1", "sk_other", "pk_other", "refund"),
        MerchantStorageScheme::RedisKv,
    );
    assert_eq!(second, Err(duplicate("lk_1")));
    assert_eq!(
        store.get_lookup_by_lookup_id("lk_1", MerchantStorageScheme::RedisKv),
        Ok(record("lk_1", "sk_1", "pk_1", "payment"))
    );
}

#[test]
fn fast_path_read_after_create_is_served_from_fast_layer() {
    let mut store = Store::new();
    store
        .insert_reverse_lookup(
            request("lk_1", "sk_1", "pk_1", "payment"),
            MerchantStorageScheme::RedisKv,
        )
        .unwrap();
    assert_eq!(
        store.get_lookup_by_lookup_id("lk_1", MerchantStorageScheme::RedisKv),
        Ok(record("lk_1", "sk_1", "pk_1", "payment"))
    );
    assert_eq!(store.cached("lk_1"), Some(record("lk_1", "sk_1", "pk_1", "payment")));
    assert_eq!(store.stored("lk_1"), None);
}

#[test]
fn durable_only_read_of_missing_id_names_it() {
    let store = Store::new();
    assert_eq!(
        store.get_lookup_by_lookup_id("lk_missing", MerchantStorageScheme::PostgresOnly),
        Err(missing("lk_missing"))
    );
}

#[test]
fn exactly_one_of_many_creations_succeeds() {
    let mut store = Store::new();
    let mut accepted = 0;
    let mut refused = 0;
    for attempt in 0..5 {
        let source = format!("attempt_{}", attempt);
        match store.insert_reverse_lookup(
            request("lk_9", "sk_9", "pk_9", &source),
            MerchantStorageScheme::RedisKv,
        ) {
            Ok(created) => {
                accepted += 1;
                assert_eq!(created, record("lk_9", "sk_9", "pk_9", "attempt_0"));
            }
            Err(e) => {
                refused += 1;
                assert_eq!(e, duplicate("lk_9"));
            }
        }
    }
    assert_eq!(accepted, 1);
    assert_eq!(refused, 4);
    assert_eq!(store.drain_len(), 1);
}

#[test]
fn durable_only_read_after_write() {
    let mut store = Store::new();
    let created = store
        .insert_reverse_lookup(
            request("lk_2", "sk_2", "pk_2", "refund"),
            MerchantStorageScheme::PostgresOnly,
        )
        .unwrap();
    assert_eq!(created, record("lk_2", "sk_2", "pk_2", "refund"));
    assert_eq!(
        store.get_lookup_by_lookup_id("lk_2", MerchantStorageScheme::PostgresOnly),
        Ok(created)
    );
    assert_eq!(store.drain_len(), 0);
    assert_eq!(store.cached("lk_2"), None);
}

#[test]
fn durable_only_duplicate_is_refused() {
    let mut store = Store::new();
    store
        .insert_reverse_lookup(
            request("lk_2", "sk_2", "pk_2", "refund"),
            MerchantStorageScheme::PostgresOnly,
        )
        .unwrap();
    assert_eq!(
        store.insert_reverse_lookup(
            request("lk_2", "sk_3", "pk_3", "payment"),
            MerchantStorageScheme::PostgresOnly,
        ),
        Err(duplicate("lk_2"))
    );
    assert_eq!(store.stored("lk_2"), Some(record("lk_2", "sk_2", "pk_2", "refund")));
}

#[test]
fn fast_path_read_falls_back_to_durable_layer() {
    let mut store = Store::new();
    store
        .insert_reverse_lookup(
            request("lk_3", "sk_3", "pk_3", "payment"),
            MerchantStorageScheme::PostgresOnly,
        )
        .unwrap();
    assert_eq!(store.cached("lk_3"), None);
    assert_eq!(
        store.get_lookup_by_lookup_id("lk_3", MerchantStorageScheme::RedisKv),
        Ok(record("lk_3", "sk_3", "pk_3", "payment"))
    );
}

#[test]
fn fast_layer_record_is_not_visible_to_durable_only_read() {
    let mut store = Store::new();
    store
        .insert_reverse_lookup(
            request("lk_4", "sk_4", "pk_4", "payment"),
            MerchantStorageScheme::RedisKv,
        )
        .unwrap();
    assert_eq!(
        store.get_lookup_by_lookup_id("lk_4", MerchantStorageScheme::PostgresOnly),
        Err(missing("lk_4"))
    );
}

#[test]
fn not_found_under_both_schemes() {
    let mut store = Store::new();
    store
        .insert_reverse_lookup(
            request("lk_a", "sk_a", "pk_a", "payment"),
            MerchantStorageScheme::RedisKv,
        )
        .unwrap();
    store
        .insert_reverse_lookup(
            request("lk_b", "sk_b", "pk_b", "payment"),
            MerchantStorageScheme::PostgresOnly,
        )
        .unwrap();
    assert_eq!(
        store.get_lookup_by_lookup_id("lk_c", MerchantStorageScheme::RedisKv),
        Err(missing("lk_c"))
    );
    assert_eq!(
        store.get_lookup_by_lookup_id("lk_c", MerchantStorageScheme::PostgresOnly),
        Err(missing("lk_c"))
    );
    assert_eq!(
        store.get_lookup_by_lookup_id("", MerchantStorageScheme::RedisKv),
        Err(missing(""))
    );
}

#[test]
fn instructions_of_one_partition_keep_their_order() {
    let mut store = Store::new();
    store
        .insert_reverse_lookup(
            request("lk_first", "sk_1", "pk_shared", "payment"),
            MerchantStorageScheme::RedisKv,
        )
        .unwrap();
    store
        .insert_reverse_lookup(
            request("lk_between", "sk_2", "pk_other", "payment"),
            MerchantStorageScheme::RedisKv,
        )
        .unwrap();
    store
        .insert_reverse_lookup(
            request("lk_second", "sk_3", "pk_shared", "refund"),
            MerchantStorageScheme::RedisKv,
        )
        .unwrap();
    assert_eq!(store.drain_len(), 3);
    let mut shared = Vec::new();
    for index in 0..store.drain_len() {
        let entry = store.drain_entry(index).unwrap();
        if entry.partition_key == "pk_shared" {
            shared.push(entry.insertable.lookup_id);
        }
    }
    assert_eq!(shared, vec!["lk_first".to_string(), "lk_second".to_string()]);
    assert_eq!(
        store.drain_entry(2),
        Some(DrainEntry {
            partition_key: "pk_shared".to_string(),
            insertable: request("lk_second", "sk_3", "pk_shared", "refund"),
        })
    );
}

#[test]
fn empty_store_holds_nothing() {
    let store = Store::new();
    assert_eq!(store.drain_len(), 0);
    assert_eq!(store.drain_entry(0), None);
    assert_eq!(store.cached("lk_1"), None);
    assert_eq!(store.stored("lk_1"), None);
}
