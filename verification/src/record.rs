//! The reverse-lookup record and the request that creates one.
use vstd::prelude::*;

verus! {

/// The four fields of a reverse lookup as mathematical values.
pub ghost struct Entry {
    pub lookup_id: Seq<char>,
    pub sk_id: Seq<char>,
    pub pk_id: Seq<char>,
    pub source: Seq<char>,
}

/// A request to create a reverse lookup.
#[derive(Debug, PartialEq, Eq)]
pub struct ReverseLookupNew {
    pub lookup_id: String,
    pub sk_id: String,
    pub pk_id: String,
    pub source: String,
}

/// A reverse lookup as the stores hold it.
#[derive(Debug, PartialEq, Eq)]
pub struct ReverseLookup {
    pub lookup_id: String,
    pub sk_id: String,
    pub pk_id: String,
    pub source: String,
}

impl View for ReverseLookupNew {
    type V = Entry;

    open spec fn view(&self) -> Entry {
        Entry {
            lookup_id: self.lookup_id@,
            sk_id: self.sk_id@,
            pk_id: self.pk_id@,
            source: self.source@,
        }
    }
}

impl View for ReverseLookup {
    type V = Entry;

    open spec fn view(&self) -> Entry {
        Entry {
            lookup_id: self.lookup_id@,
            sk_id: self.sk_id@,
            pk_id: self.pk_id@,
            source: self.source@,
        }
    }
}

impl Clone for ReverseLookupNew {
    fn clone(&self) -> (res: Self)
        ensures
            res@ == self@,
    {
        ReverseLookupNew {
            lookup_id: self.lookup_id.clone(),
            sk_id: self.sk_id.clone(),
            pk_id: self.pk_id.clone(),
            source: self.source.clone(),
        }
    }
}

impl Clone for ReverseLookup {
    fn clone(&self) -> (res: Self)
        ensures
            res@ == self@,
    {
        ReverseLookup {
            lookup_id: self.lookup_id.clone(),
            sk_id: self.sk_id.clone(),
            pk_id: self.pk_id.clone(),
            source: self.source.clone(),
        }
    }
}

impl ReverseLookupNew {
    /// The record that a request stands for: the same four fields.
    pub fn to_record(&self) -> (res: ReverseLookup)
        ensures
            res@ == self@,
    {
        ReverseLookup {
            lookup_id: self.lookup_id.clone(),
            sk_id: self.sk_id.clone(),
            pk_id: self.pk_id.clone(),
            source: self.source.clone(),
        }
    }
}

impl From<ReverseLookupNew> for ReverseLookup {
    fn from(new: ReverseLookupNew) -> (res: ReverseLookup)
        ensures
            res@ == new@,
    {
        ReverseLookup {
            lookup_id: new.lookup_id,
            sk_id: new.sk_id,
            pk_id: new.pk_id,
            source: new.source,
        }
    }
}

impl vstd::std_specs::convert::FromSpecImpl<ReverseLookupNew> for ReverseLookup {
    open spec fn obeys_from_spec() -> bool {
        true
    }

    open spec fn from_spec(new: ReverseLookupNew) -> ReverseLookup {
        ReverseLookup {
            lookup_id: new.lookup_id,
            sk_id: new.sk_id,
            pk_id: new.pk_id,
            source: new.source,
        }
    }
}

} // verus!
