use vstd::prelude::*;
use crate::kv::{kv_has, kv_idx, kv_val, kv_idx_unique};
use crate::smap::StrMap;
use crate::strutil::str_eq_string;

verus! {

/// A land parcel: its owner, free-form metadata and recorded encumbrances.
pub struct ParcelRecord {
    pub owner: String,
    pub metadata: String,
    pub encumbrances: Vec<String>,
}

/// A land registry: parcels are registered once, transferred by their owner,
/// and accumulate encumbrance notes.
pub struct LandRegistry {
    pub parcels: StrMap<ParcelRecord>,
}

impl LandRegistry {
    pub open spec fn view(&self) -> Seq<(Seq<char>, ParcelRecord)> {
        self.parcels@
    }

    pub open spec fn wf(&self) -> bool {
        self.parcels.wf()
    }

    pub fn new() -> (r: Self)
        ensures
            r.wf(),
            r@ == Seq::<(Seq<char>, ParcelRecord)>::empty(),
    {
        LandRegistry { parcels: StrMap::new() }
    }

    /// Registers a fresh parcel with no encumbrances; one already present
    /// fails and changes nothing.
    pub fn register_parcel(&mut self, parcel_id: String, owner: String, metadata: String) -> (r:
        Result<(), &'static str>)
        requires
            old(self).wf(),
        ensures
            final(self).wf(),
            kv_has(old(self)@, parcel_id@) ==> r == Err::<(), &'static str>("exists") && *final(self) == *old(self),
            !kv_has(old(self)@, parcel_id@) ==> r == Ok::<(), &'static str>(()) && final(self)@.len()
                == old(self)@.len() + 1 && final(self)@ == old(self)@.push(
                (parcel_id@, final(self)@.last().1),
            ) && final(self)@.last().1.owner == owner && final(self)@.last().1.metadata == metadata
                && final(self)@.last().1.encumbrances@ == Seq::<String>::empty(),
    {
        if self.parcels.contains_key(parcel_id.as_str()) {
            return Err("exists");
        }
        let record = ParcelRecord { owner, metadata, encumbrances: Vec::new() };
        self.parcels.insert(parcel_id, record);
        Ok(())
    }

    /// The owner hands the parcel to a new owner; nothing else of the record
    /// changes.
    pub fn transfer(&mut self, parcel_id: &str, caller: &str, new_owner: String) -> (r: Result<
        (),
        &'static str,
    >)
        requires
            old(self).wf(),
        ensures
            final(self).wf(),
            !kv_has(old(self)@, parcel_id@) ==> r == Err::<(), &'static str>("unknown") && *final(self) == *old(self),
            kv_has(old(self)@, parcel_id@) && kv_val(old(self)@, parcel_id@).owner@ != caller@
                ==> r == Err::<(), &'static str>("forbidden") && *final(self) == *old(self),
            kv_has(old(self)@, parcel_id@) && kv_val(old(self)@, parcel_id@).owner@ == caller@
                ==> r == Ok::<(), &'static str>(()) && final(self)@ == old(self)@.update(
                kv_idx(old(self)@, parcel_id@),
                (
                    parcel_id@,
                    (ParcelRecord {
                        owner: new_owner,
                        metadata: kv_val(old(self)@, parcel_id@).metadata,
                        encumbrances: kv_val(old(self)@, parcel_id@).encumbrances,
                    }),
                ),
            ),
    {
        match self.parcels.index_of(parcel_id) {
            Some(i) => {
                if !str_eq_string(caller, &self.parcels.val_at(i).owner) {
                    return Err("forbidden");
                }
                let placeholder = ParcelRecord {
                    owner: String::new(),
                    metadata: String::new(),
                    encumbrances: Vec::new(),
                };
                let prior = self.parcels.replace_val_at(i, placeholder);
                let record = ParcelRecord {
                    owner: new_owner,
                    metadata: prior.metadata,
                    encumbrances: prior.encumbrances,
                };
                self.parcels.set_val_at(i, record);
                proof {
                    assert(self@ =~= old(self)@.update(
                        kv_idx(old(self)@, parcel_id@),
                        (parcel_id@, self@[i as int].1),
                    ));
                }
                Ok(())
            },
            None => Err("unknown"),
        }
    }

    /// Appends an encumbrance note to a parcel; nothing else of the record
    /// changes.
    pub fn add_encumbrance(&mut self, parcel_id: &str, note: String) -> (r: Result<
        (),
        &'static str,
    >)
        requires
            old(self).wf(),
        ensures
            final(self).wf(),
            !kv_has(old(self)@, parcel_id@) ==> r == Err::<(), &'static str>("unknown") && *final(self) == *old(self),
            kv_has(old(self)@, parcel_id@) ==> r == Ok::<(), &'static str>(()) && final(self)@.len()
                == old(self)@.len() && final(self)@ == old(self)@.update(
                kv_idx(old(self)@, parcel_id@),
                (parcel_id@, kv_val(final(self)@, parcel_id@)),
            ) && kv_val(final(self)@, parcel_id@).owner == kv_val(old(self)@, parcel_id@).owner
                && kv_val(final(self)@, parcel_id@).metadata == kv_val(
                old(self)@,
                parcel_id@,
            ).metadata && kv_val(final(self)@, parcel_id@).encumbrances@ == kv_val(
                old(self)@,
                parcel_id@,
            ).encumbrances@.push(note),
    {
        match self.parcels.index_of(parcel_id) {
            Some(i) => {
                let placeholder = ParcelRecord {
                    owner: String::new(),
                    metadata: String::new(),
                    encumbrances: Vec::new(),
                };
                let mut prior = self.parcels.replace_val_at(i, placeholder);
                prior.encumbrances.push(note);
                self.parcels.set_val_at(i, prior);
                proof {
                    kv_idx_unique(self@, parcel_id@, i as int);
                    assert(self@ =~= old(self)@.update(
                        kv_idx(old(self)@, parcel_id@),
                        (parcel_id@, kv_val(self@, parcel_id@)),
                    ));
                }
                Ok(())
            },
            None => Err("unknown"),
        }
    }

    /// Reads a parcel.
    pub fn info(&self, parcel_id: &str) -> (r: Option<&ParcelRecord>)
        requires
            self.wf(),
        ensures
            match r {
                Some(p) => kv_has(self@, parcel_id@) && *p == kv_val(self@, parcel_id@),
                None => !kv_has(self@, parcel_id@),
            },
    {
        self.parcels.get(parcel_id)
    }
}

} // verus!
