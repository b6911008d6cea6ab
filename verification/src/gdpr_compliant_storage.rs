use vstd::prelude::*;
use crate::kv::{kv_has, kv_idx, kv_val};
use crate::smap::StrMap;
use crate::strutil::str_eq_string;

verus! {

/// A stored personal-data record: its owner, value, consent flag, erasure
/// flag and last-update time.
pub struct DataRecord {
    pub owner: String,
    pub value: String,
    pub consent: bool,
    pub deleted: bool,
    pub last_updated: u64,
}

/// Consent-aware key/value storage: owners may update, revoke consent for, or
/// erase their records, and reads see only consented, unerased data.
pub struct GDPRCompliantStorage {
    pub records: StrMap<DataRecord>,
}

impl GDPRCompliantStorage {
    pub open spec fn view(&self) -> Seq<(Seq<char>, DataRecord)> {
        self.records@
    }

    pub open spec fn wf(&self) -> bool {
        self.records.wf()
    }

    pub fn new() -> (r: Self)
        ensures
            r.wf(),
            r@ == Seq::<(Seq<char>, DataRecord)>::empty(),
    {
        GDPRCompliantStorage { records: StrMap::new() }
    }

    /// Stores a record under `key`, replacing any prior one.
    pub fn store(&mut self, key: String, owner: String, value: String, consent: bool, timestamp: u64)
        requires
            old(self).wf(),
        ensures
            final(self).wf(),
            kv_has(old(self)@, key@) ==> final(self)@ == old(self)@.update(
                kv_idx(old(self)@, key@),
                (
                    key@,
                    (DataRecord { owner, value, consent, deleted: false, last_updated: timestamp }),
                ),
            ),
            !kv_has(old(self)@, key@) ==> final(self)@ == old(self)@.push(
                (
                    key@,
                    (DataRecord { owner, value, consent, deleted: false, last_updated: timestamp }),
                ),
            ),
    {
        self.records.insert(
            key,
            DataRecord { owner, value, consent, deleted: false, last_updated: timestamp },
        );
    }

    /// The owner replaces the value and consent of an unerased record.
    pub fn update_value(
        &mut self,
        key: &str,
        caller: &str,
        value: String,
        consent: bool,
        timestamp: u64,
    ) -> (r: Result<(), &'static str>)
        requires
            old(self).wf(),
        ensures
            final(self).wf(),
            !kv_has(old(self)@, key@) ==> r == Err::<(), &'static str>("missing") && *final(self)
                == *old(self),
            kv_has(old(self)@, key@) && (kv_val(old(self)@, key@).owner@ != caller@ || kv_val(
                old(self)@,
                key@,
            ).deleted) ==> r == Err::<(), &'static str>("forbidden") && *final(self) == *old(self),
            kv_has(old(self)@, key@) && kv_val(old(self)@, key@).owner@ == caller@ && !kv_val(
                old(self)@,
                key@,
            ).deleted ==> r == Ok::<(), &'static str>(()) && final(self)@ == old(self)@.update(
                kv_idx(old(self)@, key@),
                (
                    key@,
                    (DataRecord {
                        owner: kv_val(old(self)@, key@).owner,
                        value,
                        consent,
                        deleted: false,
                        last_updated: timestamp,
                    }),
                ),
            ),
    {
        match self.records.index_of(key) {
            Some(i) => {
                let rec = self.records.val_at(i);
                if !str_eq_string(caller, &rec.owner) || rec.deleted {
                    return Err("forbidden");
                }
                let rec2 = DataRecord {
                    owner: rec.owner.clone(),
                    value,
                    consent,
                    deleted: false,
                    last_updated: timestamp,
                };
                self.records.set_val_at(i, rec2);
                Ok(())
            },
            None => Err("missing"),
        }
    }

    /// The owner withdraws consent; the record stays but reads stop seeing it.
    pub fn revoke_consent(&mut self, key: &str, caller: &str) -> (r: Result<(), &'static str>)
        requires
            old(self).wf(),
        ensures
            final(self).wf(),
            !kv_has(old(self)@, key@) ==> r == Err::<(), &'static str>("missing") && *final(self)
                == *old(self),
            kv_has(old(self)@, key@) && kv_val(old(self)@, key@).owner@ != caller@ ==> r == Err::<
                (),
                &'static str,
            >("forbidden") && *final(self) == *old(self),
            kv_has(old(self)@, key@) && kv_val(old(self)@, key@).owner@ == caller@ ==> r == Ok::<
                (),
                &'static str,
            >(()) && final(self)@ == old(self)@.update(
                kv_idx(old(self)@, key@),
                (
                    key@,
                    (DataRecord {
                        owner: kv_val(old(self)@, key@).owner,
                        value: kv_val(old(self)@, key@).value,
                        consent: false,
                        deleted: kv_val(old(self)@, key@).deleted,
                        last_updated: kv_val(old(self)@, key@).last_updated,
                    }),
                ),
            ),
    {
        match self.records.index_of(key) {
            Some(i) => {
                let rec = self.records.val_at(i);
                if !str_eq_string(caller, &rec.owner) {
                    return Err("forbidden");
                }
                let rec2 = DataRecord {
                    owner: rec.owner.clone(),
                    value: rec.value.clone(),
                    consent: false,
                    deleted: rec.deleted,
                    last_updated: rec.last_updated,
                };
                self.records.set_val_at(i, rec2);
                Ok(())
            },
            None => Err("missing"),
        }
    }

    /// The owner erases the record: its value is blanked and it is marked
    /// deleted, for good.
    pub fn erase(&mut self, key: &str, caller: &str) -> (r: Result<(), &'static str>)
        requires
            old(self).wf(),
        ensures
            final(self).wf(),
            !kv_has(old(self)@, key@) ==> r == Err::<(), &'static str>("missing") && *final(self)
                == *old(self),
            kv_has(old(self)@, key@) && kv_val(old(self)@, key@).owner@ != caller@ ==> r == Err::<
                (),
                &'static str,
            >("forbidden") && *final(self) == *old(self),
            kv_has(old(self)@, key@) && kv_val(old(self)@, key@).owner@ == caller@ ==> r == Ok::<
                (),
                &'static str,
            >(()) && final(self)@.len() == old(self)@.len() && final(self)@ == old(self)@.update(
                kv_idx(old(self)@, key@),
                (key@, kv_val(final(self)@, key@)),
            ) && kv_val(final(self)@, key@).deleted && kv_val(final(self)@, key@).value@ == Seq::<
                char,
            >::empty() && kv_val(final(self)@, key@).owner == kv_val(old(self)@, key@).owner
                && kv_val(final(self)@, key@).consent == kv_val(old(self)@, key@).consent,
    {
        match self.records.index_of(key) {
            Some(i) => {
                let rec = self.records.val_at(i);
                if !str_eq_string(caller, &rec.owner) {
                    return Err("forbidden");
                }
                let rec2 = DataRecord {
                    owner: rec.owner.clone(),
                    value: String::new(),
                    consent: rec.consent,
                    deleted: true,
                    last_updated: rec.last_updated,
                };
                self.records.set_val_at(i, rec2);
                proof {
                    crate::kv::kv_idx_unique(self@, key@, i as int);
                }
                Ok(())
            },
            None => Err("missing"),
        }
    }

    /// Reads a record, visible only while consented and unerased.
    pub fn read(&self, key: &str) -> (r: Option<&DataRecord>)
        requires
            self.wf(),
        ensures
            match r {
                Some(d) => kv_has(self@, key@) && *d == kv_val(self@, key@) && d.consent
                    && !d.deleted,
                None => !kv_has(self@, key@) || !kv_val(self@, key@).consent || kv_val(
                    self@,
                    key@,
                ).deleted,
            },
    {
        match self.records.get(key) {
            Some(rec) => {
                if rec.consent && !rec.deleted {
                    Some(rec)
                } else {
                    None
                }
            },
            None => None,
        }
    }
}

} // verus!
