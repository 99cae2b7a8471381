//! Storage-scheme aware creation and retrieval of reverse-lookup records.
//!
//! A reverse lookup maps an external identifier to the partition and sort key
//! under which the platform keeps an entity. Records are created once and
//! never changed. Depending on the storage scheme of the merchant, a record is
//! written straight to the durable store, or to the fast key-value store with
//! a replication instruction pushed to the drain stream.
pub mod record;
pub mod errors;
pub mod table;
pub mod router;
pub mod interface;
pub mod store;
pub mod mock_db;
pub mod laws;
