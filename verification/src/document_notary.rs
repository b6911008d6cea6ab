use vstd::prelude::*;
use crate::kv::{kv_has, kv_val};
use crate::smap::StrMap;
use crate::strutil::str_eq_string;

verus! {

/// A notarised document: who registered it, its content hash, and when.
pub struct NotarizedDocument {
    pub owner: String,
    pub hash: String,
    pub timestamp: u64,
}

/// A notary: each document identifier is recorded once, and its stored hash
/// can be checked later.
pub struct DocumentNotary {
    pub records: StrMap<NotarizedDocument>,
}

impl DocumentNotary {
    pub open spec fn view(&self) -> Seq<(Seq<char>, NotarizedDocument)> {
        self.records@
    }

    pub open spec fn wf(&self) -> bool {
        self.records.wf()
    }

    pub fn new() -> (r: Self)
        ensures
            r.wf(),
            r@ == Seq::<(Seq<char>, NotarizedDocument)>::empty(),
    {
        DocumentNotary { records: StrMap::new() }
    }

    /// Records a document once; recording the same identifier again fails and
    /// changes nothing.
    pub fn notarize(&mut self, doc_id: String, owner: String, hash: String, timestamp: u64) -> (r:
        Result<(), &'static str>)
        requires
            old(self).wf(),
        ensures
            final(self).wf(),
            kv_has(old(self)@, doc_id@) ==> r == Err::<(), &'static str>("already notarized")
                && *final(self) == *old(self),
            !kv_has(old(self)@, doc_id@) ==> r == Ok::<(), &'static str>(()) && final(self)@
                == old(self)@.push((doc_id@, (NotarizedDocument { owner, hash, timestamp }))),
    {
        if self.records.contains_key(doc_id.as_str()) {
            return Err("already notarized");
        }
        self.records.insert(doc_id, NotarizedDocument { owner, hash, timestamp });
        Ok(())
    }

    /// Says whether `doc_id` was notarised with exactly this hash.
    pub fn verify(&self, doc_id: &str, hash: &str) -> (r: bool)
        requires
            self.wf(),
        ensures
            r == (kv_has(self@, doc_id@) && kv_val(self@, doc_id@).hash@ == hash@),
    {
        match self.records.get(doc_id) {
            Some(doc) => str_eq_string(hash, &doc.hash),
            None => false,
        }
    }

    /// Who notarised `doc_id`, if anyone.
    pub fn owner_of(&self, doc_id: &str) -> (r: Option<&String>)
        requires
            self.wf(),
        ensures
            match r {
                Some(o) => kv_has(self@, doc_id@) && *o == kv_val(self@, doc_id@).owner,
                None => !kv_has(self@, doc_id@),
            },
    {
        match self.records.get(doc_id) {
            Some(doc) => Some(&doc.owner),
            None => None,
        }
    }
}

} // verus!
