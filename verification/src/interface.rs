//! The two operations that every reverse-lookup store offers.
use vstd::prelude::*;
use crate::errors::{duplicate, not_found, StorageError};
use crate::record::{Entry, ReverseLookup, ReverseLookupNew};
use crate::router::MerchantStorageScheme;

verus! {

/// Creation and retrieval of reverse lookups under a storage scheme.
///
/// The contract says what holds of every store: what a successful call
/// returns, what it leaves behind, and which key a failure names. Whether a
/// call succeeds is for each store to say.
pub trait ReverseLookupInterface {
    /// The invariant of the store.
    spec fn inv(&self) -> bool;

    /// The record that a retrieval of `lookup_id` under `storage_scheme`
    /// finds, if it finds one.
    spec fn held(&self, storage_scheme: MerchantStorageScheme, lookup_id: Seq<char>) -> Option<
        Entry,
    >;

    /// Creates the record of `new`. On success the record has the fields of
    /// the request and is what a retrieval under the same scheme finds from
    /// then on. A duplicate-value failure names the identifier of the request.
    fn insert_reverse_lookup(
        &mut self,
        new: ReverseLookupNew,
        storage_scheme: MerchantStorageScheme,
    ) -> (res: Result<ReverseLookup, StorageError>)
        requires
            old(self).inv(),
        ensures
            final(self).inv(),
            res matches Ok(record) ==> record@ == new@ && final(self).held(
                storage_scheme,
                new@.lookup_id,
            ) == Some(new@),
            res matches Err(e) ==> !(e@ is ValueNotFound) && (e@ is DuplicateValue ==> e@
                == duplicate(new@.lookup_id)),
    ;

    /// Retrieves the record with `lookup_id`. A record that is returned is
    /// the one that the store holds under the scheme; a not-found failure
    /// means that it holds none, and names the identifier.
    fn get_lookup_by_lookup_id(&self, lookup_id: &str, storage_scheme: MerchantStorageScheme) -> (res:
        Result<ReverseLookup, StorageError>)
        requires
            self.inv(),
        ensures
            res matches Ok(record) ==> self.held(storage_scheme, lookup_id@) == Some(record@)
                && record@.lookup_id == lookup_id@,
            res matches Err(e) ==> !(e@ is DuplicateValue) && !(e@ is ReplicationError) && (e@ is ValueNotFound
                ==> e@ == not_found(lookup_id@) && self.held(storage_scheme, lookup_id@) is None),
    ;
}

} // verus!
