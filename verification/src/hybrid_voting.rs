use vstd::prelude::*;
use crate::arith::{s_add, s_add64, sat_add_u128, sat_add_u64};
use crate::balances::spec_balance;
use crate::idmap::IdMap;
use crate::kv::{kv_has, kv_idx, kv_val, kv_idx_unique};
use crate::sets::StrSet;
use crate::smap::StrMap;

verus! {

/// A proposal tallying token-weighted and one-person-one-vote ballots side by
/// side.
pub struct Proposal {
    pub description: String,
    pub deadline: u64,
    pub token_yes: u128,
    pub token_no: u128,
    pub identity_yes: u64,
    pub identity_no: u64,
    pub voters: StrSet,
}

/// Hybrid voting: each account votes once per proposal, weighted by its token
/// balance on one tally and by registered identity on the other.
pub struct HybridVoting {
    pub token_balances: StrMap<u128>,
    pub identity_registry: StrSet,
    pub proposals: IdMap<Proposal>,
    pub next_id: u64,
}

impl HybridVoting {
    pub open spec fn wf(&self) -> bool {
        &&& self.token_balances.wf()
        &&& self.identity_registry.wf()
        &&& self.proposals.wf()
        &&& forall|i: int| 0 <= i < self.proposals@.len() ==> (#[trigger] self.proposals@[i]).0
            <= self.next_id && self.proposals@[i].1.voters.wf()
    }

    pub fn new() -> (r: Self)
        ensures
            r.wf(),
            r.token_balances@ == Seq::<(Seq<char>, u128)>::empty(),
            r.identity_registry@ == Seq::<Seq<char>>::empty(),
            r.proposals@ == Seq::<(u64, Proposal)>::empty(),
            r.next_id == 0,
    {
        HybridVoting {
            token_balances: StrMap::new(),
            identity_registry: StrSet::new(),
            proposals: IdMap::new(),
            next_id: 0,
        }
    }

    /// Sets an account's voting-token balance; zero removes the account.
    pub fn set_token_balance(&mut self, account: String, amount: u128)
        requires
            old(self).wf(),
        ensures
            final(self).wf(),
            final(self).identity_registry@ == old(self).identity_registry@,
            final(self).proposals@ == old(self).proposals@,
            final(self).next_id == old(self).next_id,
            amount == 0 && kv_has(old(self).token_balances@, account@) ==> final(self).token_balances@ == old(self).token_balances@.remove(
                kv_idx(old(self).token_balances@, account@),
            ),
            amount == 0 && !kv_has(old(self).token_balances@, account@) ==> final(self).token_balances@ == old(self).token_balances@,
            amount > 0 && kv_has(old(self).token_balances@, account@) ==> final(self).token_balances@ == old(self).token_balances@.update(
                kv_idx(old(self).token_balances@, account@),
                (account@, amount),
            ),
            amount > 0 && !kv_has(old(self).token_balances@, account@) ==> final(self).token_balances@ == old(self).token_balances@.push((account@, amount)),
    {
        if amount == 0 {
            self.token_balances.remove(account.as_str());
        } else {
            self.token_balances.insert(account, amount);
        }
    }

    /// Registers an account's identity for the one-person-one-vote tally.
    pub fn register_identity(&mut self, account: String)
        requires
            old(self).wf(),
        ensures
            final(self).wf(),
            final(self).token_balances@ == old(self).token_balances@,
            final(self).proposals@ == old(self).proposals@,
            final(self).next_id == old(self).next_id,
            final(self).identity_registry@.contains(account@),
            old(self).identity_registry@.contains(account@) ==> final(self).identity_registry@
                == old(self).identity_registry@,
            !old(self).identity_registry@.contains(account@) ==> final(self).identity_registry@
                == old(self).identity_registry@.push(account@),
    {
        let ghost pre = self.identity_registry@;
        self.identity_registry.insert(account);
        proof {
            if !pre.contains(account@) {
                assert(self.identity_registry@[self.identity_registry@.len() - 1] == account@);
            }
        }
    }

    /// Opens a proposal with empty tallies; its fresh identifier is returned.
    pub fn create_proposal(&mut self, description: String, deadline: u64) -> (r: u64)
        requires
            old(self).wf(),
            old(self).next_id < u64::MAX,
        ensures
            final(self).wf(),
            r == old(self).next_id + 1,
            final(self).next_id == r,
            final(self).token_balances@ == old(self).token_balances@,
            final(self).identity_registry@ == old(self).identity_registry@,
            final(self).proposals@.len() == old(self).proposals@.len() + 1,
            final(self).proposals@ == old(self).proposals@.push(
                (r, final(self).proposals@.last().1),
            ),
            final(self).proposals@.last().1.description == description,
            final(self).proposals@.last().1.deadline == deadline,
            final(self).proposals@.last().1.token_yes == 0,
            final(self).proposals@.last().1.token_no == 0,
            final(self).proposals@.last().1.identity_yes == 0,
            final(self).proposals@.last().1.identity_no == 0,
            final(self).proposals@.last().1.voters@ == Seq::<Seq<char>>::empty(),
    {
        self.next_id += 1;
        proof {
            assert(!kv_has(self.proposals@, self.next_id));
        }
        self.proposals.insert(
            self.next_id,
            Proposal {
                description,
                deadline,
                token_yes: 0,
                token_no: 0,
                identity_yes: 0,
                identity_no: 0,
                voters: StrSet::new(),
            },
        );
        self.next_id
    }

    /// Casts one vote per account: the caller's token balance weighs one
    /// tally, a registered identity weighs the other by one.
    pub fn vote(&mut self, caller: &str, id: u64, support: bool, now: u64) -> (r: Result<
        (),
        &'static str,
    >)
        requires
            old(self).wf(),
        ensures
            final(self).wf(),
            final(self).next_id == old(self).next_id,
            final(self).token_balances@ == old(self).token_balances@,
            final(self).identity_registry@ == old(self).identity_registry@,
            !kv_has(old(self).proposals@, id) ==> r == Err::<(), &'static str>("not found")
                && *final(self) == *old(self),
            kv_has(old(self).proposals@, id) && now > kv_val(old(self).proposals@, id).deadline
                ==> r == Err::<(), &'static str>("closed") && *final(self) == *old(self),
            kv_has(old(self).proposals@, id) && now <= kv_val(old(self).proposals@, id).deadline
                && kv_val(old(self).proposals@, id).voters@.contains(caller@) ==> r == Err::<
                (),
                &'static str,
            >("already voted") && final(self).proposals@ == old(self).proposals@,
            kv_has(old(self).proposals@, id) && now <= kv_val(old(self).proposals@, id).deadline
                && !kv_val(old(self).proposals@, id).voters@.contains(caller@) ==> r == Ok::<
                (),
                &'static str,
            >(()) && final(self).proposals@ == old(self).proposals@.update(
                kv_idx(old(self).proposals@, id),
                (id, final(self).proposals@[kv_idx(old(self).proposals@, id)].1),
            ) && {
                let before = kv_val(old(self).proposals@, id);
                let after = final(self).proposals@[kv_idx(old(self).proposals@, id)].1;
                let token_weight = spec_balance(old(self).token_balances@, caller@);
                let identity_weight: int = if old(self).identity_registry@.contains(caller@) {
                    1
                } else {
                    0
                };
                &&& after.voters@ == before.voters@.push(caller@)
                &&& after.deadline == before.deadline
                &&& (support ==> after.token_yes == s_add(before.token_yes as int, token_weight)
                    && after.identity_yes == s_add64(before.identity_yes as int, identity_weight)
                    && after.token_no == before.token_no && after.identity_no == before.identity_no)
                &&& (!support ==> after.token_no == s_add(before.token_no as int, token_weight)
                    && after.identity_no == s_add64(before.identity_no as int, identity_weight)
                    && after.token_yes == before.token_yes && after.identity_yes
                    == before.identity_yes)
            },
    {
        let token_weight: u128 = match self.token_balances.get(caller) {
            Some(b) => *b,
            None => 0,
        };
        let identity_weight: u64 = if self.identity_registry.contains(caller) {
            1
        } else {
            0
        };
        match self.proposals.index_of(id) {
            Some(i) => {
                if now > self.proposals.val_at(i).deadline {
                    return Err("closed");
                }
                let placeholder = Proposal {
                    description: String::new(),
                    deadline: 0,
                    token_yes: 0,
                    token_no: 0,
                    identity_yes: 0,
                    identity_no: 0,
                    voters: StrSet::new(),
                };
                let mut p = self.proposals.replace_val_at(i, placeholder);
                let fresh = p.voters.insert(caller.to_owned());
                if !fresh {
                    self.proposals.set_val_at(i, p);
                    proof {
                        assert(self.proposals@ =~= old(self).proposals@);
                    }
                    return Err("already voted");
                }
                if support {
                    p.token_yes = sat_add_u128(p.token_yes, token_weight);
                    p.identity_yes = sat_add_u64(p.identity_yes, identity_weight);
                } else {
                    p.token_no = sat_add_u128(p.token_no, token_weight);
                    p.identity_no = sat_add_u64(p.identity_no, identity_weight);
                }
                self.proposals.set_val_at(i, p);
                proof {
                    kv_idx_unique(old(self).proposals@, id, i as int);
                }
                Ok(())
            },
            None => Err("not found"),
        }
    }

    /// The combined score of a proposal: each side's token tally plus its
    /// identity tally, saturating.
    pub fn hybrid_result(&self, id: u64) -> (r: Option<(u128, u128)>)
        requires
            self.wf(),
        ensures
            match r {
                Some(p) => kv_has(self.proposals@, id) && p.0 == s_add(
                    kv_val(self.proposals@, id).token_yes as int,
                    kv_val(self.proposals@, id).identity_yes as int,
                ) && p.1 == s_add(
                    kv_val(self.proposals@, id).token_no as int,
                    kv_val(self.proposals@, id).identity_no as int,
                ),
                None => !kv_has(self.proposals@, id),
            },
    {
        match self.proposals.get(id) {
            Some(p) => {
                let yes_score = sat_add_u128(p.token_yes, p.identity_yes as u128);
                let no_score = sat_add_u128(p.token_no, p.identity_no as u128);
                Some((yes_score, no_score))
            },
            None => None,
        }
    }
}

} // verus!
