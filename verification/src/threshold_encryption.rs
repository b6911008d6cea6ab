use vstd::prelude::*;
use crate::kv::{kv_has, kv_idx, kv_val};
use crate::smap::StrMap;
use crate::sets::StrSet;

verus! {

/// A threshold-decryption round: registered participants submit their shares,
/// and decryption opens once enough distinct shares are in.
pub struct ThresholdEncryption {
    pub threshold: usize,
    pub participants: StrMap<u64>,
    pub submitted: StrSet,
}

impl ThresholdEncryption {
    pub open spec fn wf(&self) -> bool {
        self.participants.wf() && self.submitted.wf()
    }

    pub fn new(threshold: usize) -> (r: Self)
        ensures
            r.wf(),
            r.threshold == threshold,
            r.participants@ == Seq::<(Seq<char>, u64)>::empty(),
            r.submitted@ == Seq::<Seq<char>>::empty(),
    {
        ThresholdEncryption { threshold, participants: StrMap::new(), submitted: StrSet::new() }
    }

    /// Registers (or re-weights) a participant.
    pub fn register_participant(&mut self, id: String, weight: u64)
        requires
            old(self).wf(),
        ensures
            final(self).wf(),
            final(self).threshold == old(self).threshold,
            final(self).submitted@ == old(self).submitted@,
            kv_has(old(self).participants@, id@) ==> final(self).participants@ == old(self).participants@.update(kv_idx(old(self).participants@, id@), (id@, weight)),
            !kv_has(old(self).participants@, id@) ==> final(self).participants@ == old(self).participants@.push((id@, weight)),
    {
        self.participants.insert(id, weight);
    }

    /// A registered participant submits its share; submitting twice changes
    /// nothing.
    pub fn submit_share(&mut self, id: &str) -> (r: Result<(), &'static str>)
        requires
            old(self).wf(),
        ensures
            final(self).wf(),
            final(self).threshold == old(self).threshold,
            final(self).participants@ == old(self).participants@,
            !kv_has(old(self).participants@, id@) ==> r == Err::<(), &'static str>("unknown")
                && *final(self) == *old(self),
            kv_has(old(self).participants@, id@) ==> r == Ok::<(), &'static str>(()) && (if old(self).submitted@.contains(id@) {
                final(self).submitted@ == old(self).submitted@
            } else {
                final(self).submitted@ == old(self).submitted@.push(id@)
            }),
    {
        if !self.participants.contains_key(id) {
            return Err("unknown");
        }
        self.submitted.insert(id.to_owned());
        Ok(())
    }

    /// Says whether enough distinct shares are in to decrypt.
    pub fn can_decrypt(&self) -> (r: bool)
        ensures
            r == (self.submitted@.len() >= self.threshold),
    {
        self.submitted.len() >= self.threshold
    }

    /// Clears the submitted shares for the next round.
    pub fn reset(&mut self)
        requires
            old(self).wf(),
        ensures
            final(self).wf(),
            final(self).threshold == old(self).threshold,
            final(self).participants@ == old(self).participants@,
            final(self).submitted@ == Seq::<Seq<char>>::empty(),
    {
        self.submitted.clear();
    }
}

} // verus!
