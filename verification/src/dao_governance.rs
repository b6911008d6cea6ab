use vstd::prelude::*;
use crate::idmap::IdMap;
use crate::kv::{kv_has, kv_idx, kv_val};
use crate::sets::StrSet;

verus! {

/// A proposal: its description, tallies, voting deadline, whether it was
/// executed, and who has voted.
pub struct Proposal {
    pub description: String,
    pub votes_for: u64,
    pub votes_against: u64,
    pub deadline: u64,
    pub executed: bool,
    pub voters: StrSet,
}

/// Simple majority governance: proposals collect one vote per account until
/// their deadline, then execute once, passing if ayes beat nays.
pub struct DaoGovernance {
    pub proposals: IdMap<Proposal>,
    pub next_id: u64,
}

impl DaoGovernance {
    pub open spec fn view(&self) -> Seq<(u64, Proposal)> {
        self.proposals@
    }

    pub open spec fn wf(&self) -> bool {
        &&& self.proposals.wf()
        &&& forall|i: int| 0 <= i < self.proposals@.len() ==> (#[trigger] self.proposals@[i]).0
            <= self.next_id && self.proposals@[i].1.voters.wf()
    }

    pub fn new() -> (r: Self)
        ensures
            r.wf(),
            r@ == Seq::<(u64, Proposal)>::empty(),
            r.next_id == 0,
    {
        DaoGovernance { proposals: IdMap::new(), next_id: 0 }
    }

    /// Opens a proposal whose vote closes `duration` after `now`; its fresh
    /// identifier is returned.
    pub fn create_proposal(&mut self, description: String, now: u64, duration: u64) -> (r: u64)
        requires
            old(self).wf(),
            old(self).next_id < u64::MAX,
            now + duration <= u64::MAX,
        ensures
            final(self).wf(),
            r == old(self).next_id + 1,
            final(self).next_id == r,
            final(self)@.len() == old(self)@.len() + 1,
            final(self)@ == old(self)@.push((r, final(self)@.last().1)),
            final(self)@.last().1.description == description,
            final(self)@.last().1.votes_for == 0,
            final(self)@.last().1.votes_against == 0,
            final(self)@.last().1.deadline == now + duration,
            !final(self)@.last().1.executed,
            final(self)@.last().1.voters@ == Seq::<Seq<char>>::empty(),
    {
        self.next_id += 1;
        proof {
            assert(!kv_has(self.proposals@, self.next_id));
        }
        self.proposals.insert(
            self.next_id,
            Proposal {
                description,
                votes_for: 0,
                votes_against: 0,
                deadline: now + duration,
                executed: false,
                voters: StrSet::new(),
            },
        );
        self.next_id
    }

    /// Casts one vote per account on an open proposal; voting after the
    /// deadline, or twice, fails and changes nothing.
    pub fn vote(&mut self, id: u64, voter: String, support: bool, now: u64) -> (r: Result<
        (),
        &'static str,
    >)
        requires
            old(self).wf(),
            kv_has(old(self)@, id) ==> kv_val(old(self)@, id).votes_for < u64::MAX && kv_val(
                old(self)@,
                id,
            ).votes_against < u64::MAX,
        ensures
            final(self).wf(),
            final(self).next_id == old(self).next_id,
            !kv_has(old(self)@, id) ==> r == Err::<(), &'static str>("not found") && *final(self)
                == *old(self),
            kv_has(old(self)@, id) && now >= kv_val(old(self)@, id).deadline ==> r == Err::<
                (),
                &'static str,
            >("ended") && *final(self) == *old(self),
            kv_has(old(self)@, id) && now < kv_val(old(self)@, id).deadline && kv_val(
                old(self)@,
                id,
            ).voters@.contains(voter@) ==> r == Err::<(), &'static str>("voted") && final(self)@
                == old(self)@,
            kv_has(old(self)@, id) && now < kv_val(old(self)@, id).deadline && !kv_val(
                old(self)@,
                id,
            ).voters@.contains(voter@) ==> r == Ok::<(), &'static str>(()) && final(self)@ == old(self)@.update(
                kv_idx(old(self)@, id),
                (id, final(self)@[kv_idx(old(self)@, id)].1),
            ) && {
                let before = kv_val(old(self)@, id);
                let after = final(self)@[kv_idx(old(self)@, id)].1;
                &&& after.voters@ == before.voters@.push(voter@)
                &&& after.deadline == before.deadline
                &&& after.executed == before.executed
                &&& (support ==> after.votes_for == before.votes_for + 1 && after.votes_against
                    == before.votes_against)
                &&& (!support ==> after.votes_against == before.votes_against + 1 && after.votes_for
                    == before.votes_for)
            },
    {
        match self.proposals.index_of(id) {
            Some(i) => {
                if now >= self.proposals.val_at(i).deadline {
                    return Err("ended");
                }
                let placeholder = Proposal {
                    description: String::new(),
                    votes_for: 0,
                    votes_against: 0,
                    deadline: 0,
                    executed: false,
                    voters: StrSet::new(),
                };
                let mut p = self.proposals.replace_val_at(i, placeholder);
                let fresh = p.voters.insert(voter);
                if !fresh {
                    self.proposals.set_val_at(i, p);
                    proof {
                        assert(self@ =~= old(self)@);
                    }
                    return Err("voted");
                }
                if support {
                    p.votes_for += 1;
                } else {
                    p.votes_against += 1;
                }
                self.proposals.set_val_at(i, p);
                proof {
                    crate::kv::kv_idx_unique(old(self)@, id, i as int);
                }
                Ok(())
            },
            None => Err("not found"),
        }
    }

    /// Executes a proposal once its deadline has passed; says whether the
    /// ayes won.
    pub fn execute(&mut self, id: u64, now: u64) -> (r: Result<bool, &'static str>)
        requires
            old(self).wf(),
        ensures
            final(self).wf(),
            final(self).next_id == old(self).next_id,
            !kv_has(old(self)@, id) ==> r == Err::<bool, &'static str>("not found") && *final(self)
                == *old(self),
            kv_has(old(self)@, id) && now < kv_val(old(self)@, id).deadline ==> r == Err::<
                bool,
                &'static str,
            >("active") && *final(self) == *old(self),
            kv_has(old(self)@, id) && now >= kv_val(old(self)@, id).deadline && kv_val(
                old(self)@,
                id,
            ).executed ==> r == Err::<bool, &'static str>("done") && *final(self) == *old(self),
            kv_has(old(self)@, id) && now >= kv_val(old(self)@, id).deadline && !kv_val(
                old(self)@,
                id,
            ).executed ==> r == Ok::<bool, &'static str>(
                kv_val(old(self)@, id).votes_for > kv_val(old(self)@, id).votes_against,
            ) && final(self)@ == old(self)@.update(
                kv_idx(old(self)@, id),
                (id, final(self)@[kv_idx(old(self)@, id)].1),
            ) && final(self)@[kv_idx(old(self)@, id)].1.executed && final(self)@[kv_idx(
                old(self)@,
                id,
            )].1.votes_for == kv_val(old(self)@, id).votes_for && final(self)@[kv_idx(
                old(self)@,
                id,
            )].1.votes_against == kv_val(old(self)@, id).votes_against,
    {
        match self.proposals.index_of(id) {
            Some(i) => {
                if now < self.proposals.val_at(i).deadline {
                    return Err("active");
                }
                if self.proposals.val_at(i).executed {
                    return Err("done");
                }
                let placeholder = Proposal {
                    description: String::new(),
                    votes_for: 0,
                    votes_against: 0,
                    deadline: 0,
                    executed: false,
                    voters: StrSet::new(),
                };
                let mut p = self.proposals.replace_val_at(i, placeholder);
                p.executed = true;
                let passed = p.votes_for > p.votes_against;
                self.proposals.set_val_at(i, p);
                proof {
                    crate::kv::kv_idx_unique(old(self)@, id, i as int);
                }
                Ok(passed)
            },
            None => Err("not found"),
        }
    }
}

} // verus!
