use vstd::prelude::*;
use crate::idmap::IdMap;
use crate::kv::{kv_has, kv_idx, kv_val, kv_idx_unique};
use crate::sets::StrSet;

verus! {

/// A veto council: members may veto proposals, and a proposal counts as
/// vetoed once a quorum of distinct members have.
pub struct VetoCouncil {
    pub members: StrSet,
    pub vetos: IdMap<StrSet>,
    pub quorum: usize,
}

impl VetoCouncil {
    pub open spec fn wf(&self) -> bool {
        &&& self.members.wf()
        &&& self.vetos.wf()
        &&& forall|i: int| 0 <= i < self.vetos@.len() ==> (#[trigger] self.vetos@[i]).1.wf()
    }

    pub fn new(quorum: usize) -> (r: Self)
        ensures
            r.wf(),
            r.quorum == quorum,
            r.members@ == Seq::<Seq<char>>::empty(),
            r.vetos@.len() == 0,
    {
        VetoCouncil { members: StrSet::new(), vetos: IdMap::new(), quorum }
    }

    /// Seats a member; seating one twice changes nothing.
    pub fn add_member(&mut self, member: String)
        requires
            old(self).wf(),
        ensures
            final(self).wf(),
            final(self).quorum == old(self).quorum,
            final(self).vetos@ == old(self).vetos@,
            old(self).members@.contains(member@) ==> final(self).members@ == old(self).members@,
            !old(self).members@.contains(member@) ==> final(self).members@ == old(self).members@.push(member@),
            final(self).members@.contains(member@),
    {
        let ghost pre = self.members@;
        self.members.insert(member);
        proof {
            if !pre.contains(member@) {
                assert(self.members@[self.members@.len() - 1] == member@);
            }
        }
    }

    /// Unseats a member; recorded vetos are kept.
    pub fn remove_member(&mut self, member: &str)
        requires
            old(self).wf(),
        ensures
            final(self).wf(),
            final(self).quorum == old(self).quorum,
            final(self).vetos@ == old(self).vetos@,
            !final(self).members@.contains(member@),
            old(self).members@.contains(member@) ==> final(self).members@ == old(self).members@.remove(old(self).members@.index_of(member@)),
            !old(self).members@.contains(member@) ==> final(self).members@ == old(self).members@,
    {
        self.members.remove(member);
    }

    /// A seated member vetoes a proposal; a repeated veto by the same member
    /// counts once.
    pub fn cast_veto(&mut self, proposal_id: u64, member: &str) -> (r: Result<(), &'static str>)
        requires
            old(self).wf(),
        ensures
            final(self).wf(),
            final(self).quorum == old(self).quorum,
            final(self).members@ == old(self).members@,
            !old(self).members@.contains(member@) ==> r == Err::<(), &'static str>("not member")
                && *final(self) == *old(self),
            old(self).members@.contains(member@) && !kv_has(old(self).vetos@, proposal_id) ==> r
                == Ok::<(), &'static str>(()) && final(self).vetos@.len() == old(self).vetos@.len()
                + 1 && final(self).vetos@ == old(self).vetos@.push(
                (proposal_id, final(self).vetos@.last().1),
            ) && final(self).vetos@.last().1@ == seq![member@],
            old(self).members@.contains(member@) && kv_has(old(self).vetos@, proposal_id) ==> r
                == Ok::<(), &'static str>(()) && final(self).vetos@ == old(self).vetos@.update(
                kv_idx(old(self).vetos@, proposal_id),
                (proposal_id, final(self).vetos@[kv_idx(old(self).vetos@, proposal_id)].1),
            ) && (if kv_val(old(self).vetos@, proposal_id)@.contains(member@) {
                final(self).vetos@[kv_idx(old(self).vetos@, proposal_id)].1@ == kv_val(
                    old(self).vetos@,
                    proposal_id,
                )@
            } else {
                final(self).vetos@[kv_idx(old(self).vetos@, proposal_id)].1@ == kv_val(
                    old(self).vetos@,
                    proposal_id,
                )@.push(member@)
            }),
    {
        if !self.members.contains(member) {
            return Err("not member");
        }
        match self.vetos.index_of(proposal_id) {
            Some(i) => {
                let mut voters = self.vetos.replace_val_at(i, StrSet::new());
                voters.insert(member.to_owned());
                self.vetos.set_val_at(i, voters);
                proof {
                    kv_idx_unique(old(self).vetos@, proposal_id, i as int);
                }
                Ok(())
            },
            None => {
                let mut voters = StrSet::new();
                voters.insert(member.to_owned());
                self.vetos.insert(proposal_id, voters);
                proof {
                    assert(self.vetos@.last().1@ =~= seq![member@]);
                }
                Ok(())
            },
        }
    }

    /// Says whether a quorum of distinct members have vetoed the proposal.
    pub fn is_vetoed(&self, proposal_id: u64) -> (r: bool)
        requires
            self.wf(),
        ensures
            r == (kv_has(self.vetos@, proposal_id) && kv_val(self.vetos@, proposal_id)@.len()
                >= self.quorum),
    {
        match self.vetos.get(proposal_id) {
            Some(voters) => voters.len() >= self.quorum,
            None => false,
        }
    }
}

} // verus!
