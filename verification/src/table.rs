//! An ordered collection of records in which no identifier occurs twice.
use vstd::prelude::*;
use vstd::string::*;
use crate::record::{Entry, ReverseLookup};

verus! {

/// The first of `entries` that has `lookup_id`, if there is one.
pub open spec fn lookup(entries: Seq<Entry>, lookup_id: Seq<char>) -> Option<Entry>
    decreases entries.len(),
{
    if entries.len() == 0 {
        None
    } else {
        match lookup(entries.drop_last(), lookup_id) {
            Some(earlier) => Some(earlier),
            None => if entries.last().lookup_id == lookup_id {
                Some(entries.last())
            } else {
                None
            },
        }
    }
}

/// No two of `entries` share a `lookup_id`.
pub open spec fn distinct_ids(entries: Seq<Entry>) -> bool {
    forall|i: int, j: int|
        0 <= i < j < entries.len() ==> entries[i].lookup_id != entries[j].lookup_id
}

/// Nothing is found exactly when no entry has the identifier.
pub proof fn lemma_lookup_none(entries: Seq<Entry>, lookup_id: Seq<char>)
    ensures
        lookup(entries, lookup_id) is None <==> forall|i: int|
            0 <= i < entries.len() ==> entries[i].lookup_id != lookup_id,
    decreases entries.len(),
{
    if entries.len() > 0 {
        let front = entries.drop_last();
        lemma_lookup_none(front, lookup_id);
        assert(forall|i: int| 0 <= i < front.len() ==> front[i] == entries[i]);
        if lookup(entries, lookup_id) is None {
            assert forall|i: int| 0 <= i < entries.len() implies entries[i].lookup_id
                != lookup_id by {
                if i < front.len() {
                    assert(front[i] == entries[i]);
                }
            }
        }
    }
}

/// What is found is one of the entries and has the identifier.
pub proof fn lemma_lookup_some(entries: Seq<Entry>, lookup_id: Seq<char>)
    requires
        lookup(entries, lookup_id) is Some,
    ensures
        lookup(entries, lookup_id)->0.lookup_id == lookup_id,
        entries.contains(lookup(entries, lookup_id)->0),
    decreases entries.len(),
{
    let front = entries.drop_last();
    if lookup(front, lookup_id) is Some {
        lemma_lookup_some(front, lookup_id);
        let found = lookup(front, lookup_id)->0;
        let i = choose|i: int| 0 <= i < front.len() && front[i] == found;
        assert(entries[i] == found);
    } else {
        assert(entries[entries.len() - 1] == entries.last());
    }
}

/// What is found among the first `n` entries is found among all of them.
pub proof fn lemma_lookup_prefix(entries: Seq<Entry>, n: int, lookup_id: Seq<char>)
    requires
        0 <= n <= entries.len(),
        lookup(entries.take(n), lookup_id) is Some,
    ensures
        lookup(entries, lookup_id) == lookup(entries.take(n), lookup_id),
    decreases entries.len() - n,
{
    if n < entries.len() {
        let front = entries.drop_last();
        assert(front.take(n) =~= entries.take(n));
        lemma_lookup_prefix(front, n, lookup_id);
    } else {
        assert(entries.take(n) =~= entries);
    }
}

/// Appending an entry whose identifier is free keeps the identifiers distinct.
pub proof fn lemma_push_distinct(entries: Seq<Entry>, entry: Entry)
    requires
        distinct_ids(entries),
        lookup(entries, entry.lookup_id) is None,
    ensures
        distinct_ids(entries.push(entry)),
{
    lemma_lookup_none(entries, entry.lookup_id);
}

/// After an entry is appended, an identifier that was found before is found
/// as before, the identifier of the new entry finds it if it was free, and
/// every other identifier is still free.
pub proof fn lemma_lookup_push(entries: Seq<Entry>, entry: Entry, lookup_id: Seq<char>)
    ensures
        lookup(entries.push(entry), lookup_id) == match lookup(entries, lookup_id) {
            Some(earlier) => Some(earlier),
            None => if entry.lookup_id == lookup_id {
                Some(entry)
            } else {
                None
            },
        },
{
    assert(entries.push(entry).drop_last() =~= entries);
}

/// Records in the order in which they were added, with distinct identifiers.
pub struct Table {
    records: Vec<ReverseLookup>,
}

impl View for Table {
    type V = Seq<Entry>;

    closed spec fn view(&self) -> Seq<Entry> {
        Seq::new(self.records@.len(), |i: int| self.records@[i]@)
    }
}

impl Table {
    /// The invariant of a table: no identifier occurs twice.
    pub open spec fn wf(&self) -> bool {
        distinct_ids(self@)
    }

    /// A table without records.
    pub fn new() -> (res: Table)
        ensures
            res@ == Seq::<Entry>::empty(),
            res.wf(),
    {
        let res = Table { records: Vec::new() };
        assert(res@ =~= Seq::<Entry>::empty());
        res
    }

    /// The number of records.
    pub fn len(&self) -> (res: usize)
        ensures
            res == self@.len(),
    {
        self.records.len()
    }

    /// The record at `index`, counted from the oldest.
    pub fn get(&self, index: usize) -> (res: Option<ReverseLookup>)
        ensures
            match res {
                Some(record) => index < self@.len() && record@ == self@[index as int],
                None => index >= self@.len(),
            },
    {
        if index < self.records.len() {
            Some(self.records[index].clone())
        } else {
            None
        }
    }

    /// Scans the records from the oldest on for one with `lookup_id`.
    pub fn find(&self, lookup_id: &str) -> (res: Option<ReverseLookup>)
        ensures
            match lookup(self@, lookup_id@) {
                Some(entry) => res matches Some(record) && record@ == entry,
                None => res is None,
            },
    {
        let key = String::from_str(lookup_id);
        let mut i: usize = 0;
        while i < self.records.len()
            invariant
                i <= self.records.len(),
                key@ == lookup_id@,
                lookup(self@.take(i as int), lookup_id@) is None,
            decreases self.records.len() - i,
        {
            proof {
                assert(self@.take(i + 1).drop_last() =~= self@.take(i as int));
                assert(self@.take(i + 1).last() == self.records@[i as int]@);
            }
            if self.records[i].lookup_id == key {
                proof {
                    lemma_lookup_prefix(self@, i + 1, lookup_id@);
                }
                return Some(self.records[i].clone());
            }
            i += 1;
        }
        proof {
            assert(self@.take(i as int) =~= self@);
        }
        None
    }

    /// Adds `record` as the newest, unless a record with its identifier is
    /// there already. Says whether the record was added.
    pub fn insert_if_absent(&mut self, record: ReverseLookup) -> (added: bool)
        requires
            old(self).wf(),
        ensures
            final(self).wf(),
            added == (lookup(old(self)@, record@.lookup_id) is None),
            final(self)@ == if added {
                old(self)@.push(record@)
            } else {
                old(self)@
            },
    {
        if self.find(record.lookup_id.as_str()).is_some() {
            return false;
        }
        proof {
            lemma_push_distinct(self@, record@);
        }
        let ghost before = self@;
        self.records.push(record);
        assert(self@ =~= before.push(record@));
        true
    }
}

} // verus!
