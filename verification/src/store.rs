//! A store of two layers held in memory: a fast key-value layer, a durable
//! layer, and the drain stream that carries creations from the first to the
//! second.
use vstd::prelude::*;
use crate::errors::{duplicate, not_found, DatabaseError, Failure, RedisError, SetnxReply, StorageError};
use crate::interface::ReverseLookupInterface;
use crate::record::{Entry, ReverseLookup, ReverseLookupNew};
use crate::router::{
    after_key_get, after_key_set, after_push, conclude_database_find, conclude_database_insert,
    plan_insert, plan_lookup, replication_of, DrainEntry, DrainItem, InsertPlan, LookupPlan,
    MerchantStorageScheme,
};
use crate::table::{distinct_ids, lemma_lookup_push, lemma_lookup_some, lookup, Table};

verus! {

/// What a `Store` holds, as mathematical values: the entries of each layer
/// and the instructions pushed to the drain stream, oldest first.
pub ghost struct StoreState {
    pub cache: Seq<Entry>,
    pub database: Seq<Entry>,
    pub drain: Seq<DrainItem>,
}

/// A store that holds nothing.
pub open spec fn empty_state() -> StoreState {
    StoreState { cache: Seq::empty(), database: Seq::empty(), drain: Seq::empty() }
}

/// The layer that decides whether a creation under `scheme` is accepted.
pub open spec fn authority(state: StoreState, scheme: MerchantStorageScheme) -> Seq<Entry> {
    match scheme {
        MerchantStorageScheme::PostgresOnly => state.database,
        MerchantStorageScheme::RedisKv => state.cache,
    }
}

/// What creating `new` under `scheme` returns: the record, unless the
/// deciding layer has its identifier already.
pub open spec fn insert_outcome(
    state: StoreState,
    new: Entry,
    scheme: MerchantStorageScheme,
) -> Result<Entry, Failure> {
    if lookup(authority(state, scheme), new.lookup_id) is Some {
        Err(duplicate(new.lookup_id))
    } else {
        Ok(new)
    }
}

/// What the store holds after creating `new` under `scheme`. A refused
/// creation changes nothing. An accepted one adds the record to the durable
/// layer, or else to the fast layer with its instruction pushed to the drain
/// stream.
pub open spec fn insert_effect(
    state: StoreState,
    new: Entry,
    scheme: MerchantStorageScheme,
) -> StoreState {
    if lookup(authority(state, scheme), new.lookup_id) is Some {
        state
    } else {
        match scheme {
            MerchantStorageScheme::PostgresOnly => StoreState {
                database: state.database.push(new),
                ..state
            },
            MerchantStorageScheme::RedisKv => StoreState {
                cache: state.cache.push(new),
                drain: state.drain.push(replication_of(new)),
                ..state
            },
        }
    }
}

/// The record that a retrieval of `lookup_id` under `scheme` finds: the one
/// in the fast layer if the scheme consults it and it has one, else the one
/// in the durable layer.
pub open spec fn visible(
    state: StoreState,
    scheme: MerchantStorageScheme,
    lookup_id: Seq<char>,
) -> Option<Entry> {
    match scheme {
        MerchantStorageScheme::PostgresOnly => lookup(state.database, lookup_id),
        MerchantStorageScheme::RedisKv => match lookup(state.cache, lookup_id) {
            Some(cached) => Some(cached),
            None => lookup(state.database, lookup_id),
        },
    }
}

/// What retrieving `lookup_id` under `scheme` returns.
pub open spec fn lookup_outcome(
    state: StoreState,
    scheme: MerchantStorageScheme,
    lookup_id: Seq<char>,
) -> Result<Entry, Failure> {
    match visible(state, scheme, lookup_id) {
        Some(entry) => Ok(entry),
        None => Err(not_found(lookup_id)),
    }
}

/// The two layers and the drain stream.
pub struct Store {
    cache: Table,
    database: Table,
    drain: Vec<DrainEntry>,
}

impl View for Store {
    type V = StoreState;

    closed spec fn view(&self) -> StoreState {
        StoreState {
            cache: self.cache@,
            database: self.database@,
            drain: Seq::new(self.drain@.len(), |i: int| self.drain@[i]@),
        }
    }
}

impl Store {
    /// The invariant of a store: within a layer no identifier occurs twice.
    pub open spec fn wf(&self) -> bool {
        distinct_ids(self@.cache) && distinct_ids(self@.database)
    }

    /// A store that holds nothing.
    pub fn new() -> (res: Store)
        ensures
            res.wf(),
            res@ == empty_state(),
    {
        let res = Store { cache: Table::new(), database: Table::new(), drain: Vec::new() };
        assert(res@.drain =~= Seq::<DrainItem>::empty());
        res
    }

    /// The number of instructions pushed to the drain stream so far.
    pub fn drain_len(&self) -> (res: usize)
        ensures
            res == self@.drain.len(),
    {
        self.drain.len()
    }

    /// The instruction at `index` of the drain stream, counted from the
    /// oldest.
    pub fn drain_entry(&self, index: usize) -> (res: Option<DrainEntry>)
        ensures
            match res {
                Some(entry) => index < self@.drain.len() && entry@ == self@.drain[index as int],
                None => index >= self@.drain.len(),
            },
    {
        if index < self.drain.len() {
            Some(self.drain[index].clone())
        } else {
            None
        }
    }

    /// The record that the fast layer has under `lookup_id`.
    pub fn cached(&self, lookup_id: &str) -> (res: Option<ReverseLookup>)
        ensures
            match lookup(self@.cache, lookup_id@) {
                Some(entry) => res matches Some(record) && record@ == entry,
                None => res is None,
            },
    {
        self.cache.find(lookup_id)
    }

    /// The record that the durable layer has under `lookup_id`.
    pub fn stored(&self, lookup_id: &str) -> (res: Option<ReverseLookup>)
        ensures
            match lookup(self@.database, lookup_id@) {
                Some(entry) => res matches Some(record) && record@ == entry,
                None => res is None,
            },
    {
        self.database.find(lookup_id)
    }

    /// The durable layer's insert: refused where the identifier is taken.
    fn database_insert(&mut self, new: ReverseLookupNew) -> (reply: Result<
        ReverseLookup,
        DatabaseError,
    >)
        requires
            old(self).wf(),
        ensures
            final(self).wf(),
            final(self)@.cache == old(self)@.cache,
            final(self)@.drain == old(self)@.drain,
            match lookup(old(self)@.database, new@.lookup_id) {
                Some(_) => reply == Err::<ReverseLookup, DatabaseError>(
                    DatabaseError::UniqueViolation,
                ) && final(self)@.database == old(self)@.database,
                None => reply matches Ok(record) && record@ == new@ && final(self)@.database
                    == old(self)@.database.push(new@),
            },
    {
        let record = ReverseLookup::from(new);
        if self.database.insert_if_absent(record.clone()) {
            Ok(record)
        } else {
            Err(DatabaseError::UniqueViolation)
        }
    }

    /// The durable layer's find.
    fn database_find(&self, lookup_id: &str) -> (reply: Result<ReverseLookup, DatabaseError>)
        ensures
            match lookup(self@.database, lookup_id@) {
                Some(entry) => reply matches Ok(record) && record@ == entry,
                None => reply == Err::<ReverseLookup, DatabaseError>(DatabaseError::NotFound),
            },
    {
        match self.database.find(lookup_id) {
            Some(record) => Ok(record),
            None => Err(DatabaseError::NotFound),
        }
    }

    /// The fast layer's conditional set, keyed by the identifier of `value`.
    fn set_key_if_not_exist(&mut self, value: ReverseLookup) -> (reply: Result<
        SetnxReply,
        RedisError,
    >)
        requires
            old(self).wf(),
        ensures
            final(self).wf(),
            final(self)@.database == old(self)@.database,
            final(self)@.drain == old(self)@.drain,
            match lookup(old(self)@.cache, value@.lookup_id) {
                Some(_) => reply == Ok::<SetnxReply, RedisError>(SetnxReply::KeyNotSet)
                    && final(self)@.cache == old(self)@.cache,
                None => reply == Ok::<SetnxReply, RedisError>(SetnxReply::KeySet)
                    && final(self)@.cache == old(self)@.cache.push(value@),
            },
    {
        if self.cache.insert_if_absent(value) {
            Ok(SetnxReply::KeySet)
        } else {
            Ok(SetnxReply::KeyNotSet)
        }
    }

    /// The fast layer's get.
    fn get_key(&self, key: &str) -> (reply: Result<ReverseLookup, RedisError>)
        ensures
            match lookup(self@.cache, key@) {
                Some(entry) => reply matches Ok(record) && record@ == entry,
                None => reply == Err::<ReverseLookup, RedisError>(RedisError::NotFound),
            },
    {
        match self.cache.find(key) {
            Some(record) => Ok(record),
            None => Err(RedisError::NotFound),
        }
    }

    /// Appends `entry` to the drain stream.
    fn push_to_drainer(&mut self, entry: DrainEntry) -> (reply: Result<(), RedisError>)
        ensures
            reply is Ok,
            final(self)@.cache == old(self)@.cache,
            final(self)@.database == old(self)@.database,
            final(self)@.drain == old(self)@.drain.push(entry@),
    {
        let ghost before = self@.drain;
        self.drain.push(entry);
        assert(self@.drain =~= before.push(entry@));
        Ok(())
    }
}

impl ReverseLookupInterface for Store {
    open spec fn inv(&self) -> bool {
        self.wf()
    }

    open spec fn held(&self, storage_scheme: MerchantStorageScheme, lookup_id: Seq<char>) -> Option<
        Entry,
    > {
        visible(self@, storage_scheme, lookup_id)
    }

    /// Creates the record of `new` in the layer that the scheme names. The
    /// result and the store afterwards are exactly those of `insert_outcome`
    /// and `insert_effect`.
    fn insert_reverse_lookup(
        &mut self,
        new: ReverseLookupNew,
        storage_scheme: MerchantStorageScheme,
    ) -> (res: Result<ReverseLookup, StorageError>)
        ensures
            final(self)@ == insert_effect(old(self)@, new@, storage_scheme),
            match insert_outcome(old(self)@, new@, storage_scheme) {
                Ok(entry) => res matches Ok(record) && record@ == entry,
                Err(failure) => res matches Err(e) && e@ == failure,
            },
    {
        proof {
            lemma_lookup_push(authority(self@, storage_scheme), new@, new@.lookup_id);
        }
        match plan_insert(new, storage_scheme) {
            InsertPlan::Database { lookup_id, new } => {
                let reply = self.database_insert(new);
                conclude_database_insert(lookup_id, reply)
            },
            InsertPlan::KeyValue { key, record, new } => {
                let reply = self.set_key_if_not_exist(record.clone());
                match after_key_set(record, new, reply) {
                    Ok(pending) => {
                        let ack = self.push_to_drainer(pending.entry);
                        after_push(pending.record, ack)
                    },
                    Err(e) => Err(e),
                }
            },
        }
    }

    /// Retrieves the record with `lookup_id` from the layers that the scheme
    /// consults. The result is exactly that of `lookup_outcome`.
    fn get_lookup_by_lookup_id(&self, lookup_id: &str, storage_scheme: MerchantStorageScheme) -> (res:
        Result<ReverseLookup, StorageError>)
        ensures
            match lookup_outcome(self@, storage_scheme, lookup_id@) {
                Ok(entry) => res matches Ok(record) && record@ == entry,
                Err(failure) => res matches Err(e) && e@ == failure,
            },
    {
        proof {
            if lookup(self@.cache, lookup_id@) is Some {
                lemma_lookup_some(self@.cache, lookup_id@);
            }
            if lookup(self@.database, lookup_id@) is Some {
                lemma_lookup_some(self@.database, lookup_id@);
            }
        }
        match plan_lookup(storage_scheme) {
            LookupPlan::Database => conclude_database_find(lookup_id, self.database_find(lookup_id)),
            LookupPlan::KeyValueFirst => match after_key_get(self.get_key(lookup_id)) {
                Some(cached) => Ok(cached),
                None => conclude_database_find(lookup_id, self.database_find(lookup_id)),
            },
        }
    }
}

} // verus!
