//! A stand-in for the stores that keeps its records in one collection in
//! memory. It has no layers, so the storage scheme makes no difference to it;
//! it is meant for tests, not for production load.
use vstd::prelude::*;
use crate::errors::{duplicate, not_found, StorageError};
use crate::interface::ReverseLookupInterface;
use crate::record::{Entry, ReverseLookup, ReverseLookupNew};
use crate::router::MerchantStorageScheme;
use crate::table::{distinct_ids, lemma_lookup_push, lemma_lookup_some, lookup, Table};

verus! {

/// The records created so far, oldest first.
pub struct MockDb {
    reverse_lookups: Table,
}

impl View for MockDb {
    type V = Seq<Entry>;

    closed spec fn view(&self) -> Seq<Entry> {
        self.reverse_lookups@
    }
}

impl MockDb {
    /// A stand-in without records.
    pub fn new() -> (res: MockDb)
        ensures
            res@ == Seq::<Entry>::empty(),
            res.inv(),
    {
        MockDb { reverse_lookups: Table::new() }
    }

    /// The number of records created so far.
    pub fn len(&self) -> (res: usize)
        ensures
            res == self@.len(),
    {
        self.reverse_lookups.len()
    }
}

impl ReverseLookupInterface for MockDb {
    open spec fn inv(&self) -> bool {
        distinct_ids(self@)
    }

    open spec fn held(&self, storage_scheme: MerchantStorageScheme, lookup_id: Seq<char>) -> Option<
        Entry,
    > {
        lookup(self@, lookup_id)
    }

    /// Appends the record of `new`, unless a record has its identifier
    /// already: then nothing changes and the duplicate-value failure names
    /// the identifier.
    fn insert_reverse_lookup(
        &mut self,
        new: ReverseLookupNew,
        storage_scheme: MerchantStorageScheme,
    ) -> (res: Result<ReverseLookup, StorageError>)
        ensures
            match lookup(old(self)@, new@.lookup_id) {
                Some(_) => res matches Err(e) && e@ == duplicate(new@.lookup_id) && final(self)@
                    == old(self)@,
                None => res matches Ok(record) && record@ == new@ && final(self)@ == old(
                    self,
                )@.push(new@),
            },
    {
        proof {
            lemma_lookup_push(self@, new@, new@.lookup_id);
        }
        let reverse_lookup_insert = ReverseLookup::from(new);
        if self.reverse_lookups.insert_if_absent(reverse_lookup_insert.clone()) {
            Ok(reverse_lookup_insert)
        } else {
            Err(StorageError::duplicate_value(reverse_lookup_insert.lookup_id))
        }
    }

    /// Scans the records from the oldest on for one with `lookup_id`.
    fn get_lookup_by_lookup_id(&self, lookup_id: &str, storage_scheme: MerchantStorageScheme) -> (res:
        Result<ReverseLookup, StorageError>)
        ensures
            match lookup(self@, lookup_id@) {
                Some(entry) => res matches Ok(record) && record@ == entry,
                None => res matches Err(e) && e@ == not_found(lookup_id@),
            },
    {
        proof {
            if lookup(self@, lookup_id@) is Some {
                lemma_lookup_some(self@, lookup_id@);
            }
        }
        match self.reverse_lookups.find(lookup_id) {
            Some(record) => Ok(record),
            None => Err(StorageError::value_not_found(lookup_id)),
        }
    }
}

} // verus!
