use vstd::prelude::*;
use crate::kv::{kv_has, kv_idx, kv_val};
use crate::smap::StrMap;
use crate::strutil::str_eq_string;

verus! {

/// A decentralised-identifier document: its controller, free-form metadata,
/// and whether it was revoked.
pub struct DidDocument {
    pub controller: String,
    pub metadata: String,
    pub revoked: bool,
}

/// A registry of identifier documents, each governed by its controller.
pub struct DIDRegistry {
    pub documents: StrMap<DidDocument>,
}

impl DIDRegistry {
    pub open spec fn view(&self) -> Seq<(Seq<char>, DidDocument)> {
        self.documents@
    }

    pub open spec fn wf(&self) -> bool {
        self.documents.wf()
    }

    pub fn new() -> (r: Self)
        ensures
            r.wf(),
            r@ == Seq::<(Seq<char>, DidDocument)>::empty(),
    {
        DIDRegistry { documents: StrMap::new() }
    }

    /// Registers a fresh identifier; one already present fails and changes
    /// nothing.
    pub fn register(&mut self, did: String, controller: String, metadata: String) -> (r: Result<
        (),
        &'static str,
    >)
        requires
            old(self).wf(),
        ensures
            final(self).wf(),
            kv_has(old(self)@, did@) ==> r == Err::<(), &'static str>("exists") && *final(self)
                == *old(self),
            !kv_has(old(self)@, did@) ==> r == Ok::<(), &'static str>(()) && final(self)@ == old(self)@.push((did@, (DidDocument { controller, metadata, revoked: false }))),
    {
        if self.documents.contains_key(did.as_str()) {
            return Err("exists");
        }
        self.documents.insert(did, DidDocument { controller, metadata, revoked: false });
        Ok(())
    }

    /// The controller replaces the metadata of an unrevoked document.
    pub fn update_metadata(&mut self, did: &str, caller: &str, metadata: String) -> (r: Result<
        (),
        &'static str,
    >)
        requires
            old(self).wf(),
        ensures
            final(self).wf(),
            !kv_has(old(self)@, did@) ==> r == Err::<(), &'static str>("missing") && *final(self)
                == *old(self),
            kv_has(old(self)@, did@) && kv_val(old(self)@, did@).controller@ != caller@ ==> r
                == Err::<(), &'static str>("forbidden") && *final(self) == *old(self),
            kv_has(old(self)@, did@) && kv_val(old(self)@, did@).controller@ == caller@ && kv_val(
                old(self)@,
                did@,
            ).revoked ==> r == Err::<(), &'static str>("revoked") && *final(self) == *old(self),
            kv_has(old(self)@, did@) && kv_val(old(self)@, did@).controller@ == caller@ && !kv_val(
                old(self)@,
                did@,
            ).revoked ==> r == Ok::<(), &'static str>(()) && final(self)@ == old(self)@.update(
                kv_idx(old(self)@, did@),
                (
                    did@,
                    (DidDocument {
                        controller: kv_val(old(self)@, did@).controller,
                        metadata,
                        revoked: false,
                    }),
                ),
            ),
    {
        match self.documents.index_of(did) {
            Some(i) => {
                let doc = self.documents.val_at(i);
                if !str_eq_string(caller, &doc.controller) {
                    return Err("forbidden");
                }
                if doc.revoked {
                    return Err("revoked");
                }
                let doc2 = DidDocument {
                    controller: doc.controller.clone(),
                    metadata,
                    revoked: false,
                };
                self.documents.set_val_at(i, doc2);
                Ok(())
            },
            None => Err("missing"),
        }
    }

    /// The controller hands the document to a new controller.
    pub fn transfer_control(&mut self, did: &str, caller: &str, new_controller: String) -> (r:
        Result<(), &'static str>)
        requires
            old(self).wf(),
        ensures
            final(self).wf(),
            !kv_has(old(self)@, did@) ==> r == Err::<(), &'static str>("missing") && *final(self)
                == *old(self),
            kv_has(old(self)@, did@) && kv_val(old(self)@, did@).controller@ != caller@ ==> r
                == Err::<(), &'static str>("forbidden") && *final(self) == *old(self),
            kv_has(old(self)@, did@) && kv_val(old(self)@, did@).controller@ == caller@ ==> r
                == Ok::<(), &'static str>(()) && final(self)@ == old(self)@.update(
                kv_idx(old(self)@, did@),
                (
                    did@,
                    (DidDocument {
                        controller: new_controller,
                        metadata: kv_val(old(self)@, did@).metadata,
                        revoked: kv_val(old(self)@, did@).revoked,
                    }),
                ),
            ),
    {
        match self.documents.index_of(did) {
            Some(i) => {
                let doc = self.documents.val_at(i);
                if !str_eq_string(caller, &doc.controller) {
                    return Err("forbidden");
                }
                let doc2 = DidDocument {
                    controller: new_controller,
                    metadata: doc.metadata.clone(),
                    revoked: doc.revoked,
                };
                self.documents.set_val_at(i, doc2);
                Ok(())
            },
            None => Err("missing"),
        }
    }

    /// The controller revokes the document for good.
    pub fn revoke(&mut self, did: &str, caller: &str) -> (r: Result<(), &'static str>)
        requires
            old(self).wf(),
        ensures
            final(self).wf(),
            !kv_has(old(self)@, did@) ==> r == Err::<(), &'static str>("missing") && *final(self)
                == *old(self),
            kv_has(old(self)@, did@) && kv_val(old(self)@, did@).controller@ != caller@ ==> r
                == Err::<(), &'static str>("forbidden") && *final(self) == *old(self),
            kv_has(old(self)@, did@) && kv_val(old(self)@, did@).controller@ == caller@ ==> r
                == Ok::<(), &'static str>(()) && final(self)@ == old(self)@.update(
                kv_idx(old(self)@, did@),
                (
                    did@,
                    (DidDocument {
                        controller: kv_val(old(self)@, did@).controller,
                        metadata: kv_val(old(self)@, did@).metadata,
                        revoked: true,
                    }),
                ),
            ),
    {
        match self.documents.index_of(did) {
            Some(i) => {
                let doc = self.documents.val_at(i);
                if !str_eq_string(caller, &doc.controller) {
                    return Err("forbidden");
                }
                let doc2 = DidDocument {
                    controller: doc.controller.clone(),
                    metadata: doc.metadata.clone(),
                    revoked: true,
                };
                self.documents.set_val_at(i, doc2);
                Ok(())
            },
            None => Err("missing"),
        }
    }

    /// Reads a document.
    pub fn get(&self, did: &str) -> (r: Option<&DidDocument>)
        requires
            self.wf(),
        ensures
            match r {
                Some(d) => kv_has(self@, did@) && *d == kv_val(self@, did@),
                None => !kv_has(self@, did@),
            },
    {
        self.documents.get(did)
    }
}

} // verus!
