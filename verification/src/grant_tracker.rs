use vstd::prelude::*;
use crate::arith::{s_add, sat_add_u128};
use crate::idmap::IdMap;
use crate::kv::{kv_has, kv_idx, kv_val, kv_idx_unique};
use crate::strutil::str_eq_string;

verus! {

/// The lifecycle of a grant application.
#[derive(Clone, Copy, PartialEq, Eq, Structural)]
pub enum GrantStatus {
    Submitted,
    Approved,
    Rejected,
    Completed,
}

/// One milestone of a grant: its description, earmarked amount, and whether
/// it was marked complete.
pub struct Milestone {
    pub description: String,
    pub amount: u128,
    pub completed: bool,
}

/// A grant: its applicant, the amounts requested, approved and disbursed so
/// far, its lifecycle state and its milestones.
pub struct Grant {
    pub applicant: String,
    pub requested_amount: u128,
    pub approved_amount: u128,
    pub status: GrantStatus,
    pub milestones: Vec<Milestone>,
    pub disbursed: u128,
}

/// Every milestone is marked complete.
pub open spec fn all_completed(ms: Seq<Milestone>) -> bool {
    forall|i: int| 0 <= i < ms.len() ==> (#[trigger] ms[i]).completed
}

/// A grant programme: an authority approves submitted grants, marks their
/// milestones and disburses within the approved amount.
pub struct GrantTracker {
    pub authority: String,
    pub grants: IdMap<Grant>,
    pub next_id: u64,
}

impl GrantTracker {
    pub open spec fn view(&self) -> Seq<(u64, Grant)> {
        self.grants@
    }

    pub open spec fn wf(&self) -> bool {
        &&& self.grants.wf()
        &&& forall|i: int| 0 <= i < self.grants@.len() ==> (#[trigger] self.grants@[i]).0
            <= self.next_id
    }

    pub fn new(authority: String) -> (r: Self)
        ensures
            r.wf(),
            r.authority == authority,
            r@ == Seq::<(u64, Grant)>::empty(),
            r.next_id == 0,
    {
        GrantTracker { authority, grants: IdMap::new(), next_id: 0 }
    }

    /// Registers an application with its milestones, none complete, and
    /// returns its fresh identifier.
    pub fn submit_grant(
        &mut self,
        applicant: String,
        requested_amount: u128,
        milestones: Vec<(String, u128)>,
    ) -> (r: u64)
        requires
            old(self).wf(),
            old(self).next_id < u64::MAX,
        ensures
            final(self).wf(),
            r == old(self).next_id + 1,
            final(self).next_id == r,
            final(self).authority == old(self).authority,
            final(self)@.len() == old(self)@.len() + 1,
            final(self)@ == old(self)@.push((r, final(self)@.last().1)),
            final(self)@.last().1.applicant == applicant,
            final(self)@.last().1.requested_amount == requested_amount,
            final(self)@.last().1.approved_amount == 0,
            final(self)@.last().1.status == GrantStatus::Submitted,
            final(self)@.last().1.disbursed == 0,
            final(self)@.last().1.milestones@.len() == milestones@.len(),
            forall|j: int| 0 <= j < milestones@.len() ==> {
                let m = (#[trigger] final(self)@.last().1.milestones@[j]);
                m.description == milestones@[j].0 && m.amount == milestones@[j].1 && !m.completed
            },
    {
        self.next_id += 1;
        let n: usize = milestones.len();
        let mut items: Vec<Milestone> = Vec::new();
        let mut k: usize = 0;
        while k < n
            invariant
                0 <= k <= n,
                n == milestones@.len(),
                items@.len() == k,
                forall|j: int| 0 <= j < k ==> {
                    let m = (#[trigger] items@[j]);
                    m.description == milestones@[j].0 && m.amount == milestones@[j].1
                        && !m.completed
                },
            decreases n - k,
        {
            let description = milestones[k].0.clone();
            let amount = milestones[k].1;
            items.push(Milestone { description, amount, completed: false });
            k += 1;
        }
        proof {
            assert(!kv_has(self.grants@, self.next_id));
        }
        self.grants.insert(
            self.next_id,
            Grant {
                applicant,
                requested_amount,
                approved_amount: 0,
                status: GrantStatus::Submitted,
                milestones: items,
                disbursed: 0,
            },
        );
        self.next_id
    }

    /// The authority approves a submitted grant for `amount`.
    pub fn approve(&mut self, caller: &str, id: u64, amount: u128) -> (r: Result<
        (),
        &'static str,
    >)
        requires
            old(self).wf(),
        ensures
            final(self).wf(),
            final(self).next_id == old(self).next_id,
            caller@ != old(self).authority@ ==> r == Err::<(), &'static str>("only authority")
                && *final(self) == *old(self),
            caller@ == old(self).authority@ && !kv_has(old(self)@, id) ==> r == Err::<
                (),
                &'static str,
            >("not found") && *final(self) == *old(self),
            caller@ == old(self).authority@ && kv_has(old(self)@, id) && kv_val(
                old(self)@,
                id,
            ).status != GrantStatus::Submitted ==> r == Err::<(), &'static str>("invalid state")
                && final(self)@ == old(self)@,
            caller@ == old(self).authority@ && kv_has(old(self)@, id) && kv_val(
                old(self)@,
                id,
            ).status == GrantStatus::Submitted ==> r == Ok::<(), &'static str>(()) && final(self)@
                == old(self)@.update(
                kv_idx(old(self)@, id),
                (id, kv_val(final(self)@, id)),
            ) && kv_val(final(self)@, id).status == GrantStatus::Approved && kv_val(
                final(self)@,
                id,
            ).approved_amount == amount && kv_val(final(self)@, id).applicant == kv_val(
                old(self)@,
                id,
            ).applicant && kv_val(final(self)@, id).requested_amount == kv_val(
                old(self)@,
                id,
            ).requested_amount && kv_val(final(self)@, id).milestones@ == kv_val(
                old(self)@,
                id,
            ).milestones@ && kv_val(final(self)@, id).disbursed == kv_val(old(self)@, id).disbursed,
    {
        if !str_eq_string(caller, &self.authority) {
            return Err("only authority");
        }
        match self.grants.index_of(id) {
            Some(i) => {
                if !matches!(self.grants.val_at(i).status, GrantStatus::Submitted) {
                    proof {
                        assert(self@ =~= old(self)@);
                    }
                    return Err("invalid state");
                }
                let placeholder = Grant {
                    applicant: String::new(),
                    requested_amount: 0,
                    approved_amount: 0,
                    status: GrantStatus::Submitted,
                    milestones: Vec::new(),
                    disbursed: 0,
                };
                let g = self.grants.replace_val_at(i, placeholder);
                self.grants.set_val_at(
                    i,
                    Grant { approved_amount: amount, status: GrantStatus::Approved, ..g },
                );
                proof {
                    kv_idx_unique(old(self)@, id, i as int);
                    kv_idx_unique(self@, id, i as int);
                }
                Ok(())
            },
            None => Err("not found"),
        }
    }

    /// The authority rejects a grant outright, whatever its state.
    pub fn reject(&mut self, caller: &str, id: u64) -> (r: Result<(), &'static str>)
        requires
            old(self).wf(),
        ensures
            final(self).wf(),
            final(self).next_id == old(self).next_id,
            caller@ != old(self).authority@ ==> r == Err::<(), &'static str>("only authority")
                && *final(self) == *old(self),
            caller@ == old(self).authority@ && !kv_has(old(self)@, id) ==> r == Err::<
                (),
                &'static str,
            >("not found") && *final(self) == *old(self),
            caller@ == old(self).authority@ && kv_has(old(self)@, id) ==> r == Ok::<
                (),
                &'static str,
            >(()) && final(self)@ == old(self)@.update(
                kv_idx(old(self)@, id),
                (id, kv_val(final(self)@, id)),
            ) && kv_val(final(self)@, id).status == GrantStatus::Rejected && kv_val(
                final(self)@,
                id,
            ).approved_amount == kv_val(old(self)@, id).approved_amount && kv_val(
                final(self)@,
                id,
            ).disbursed == kv_val(old(self)@, id).disbursed && kv_val(final(self)@, id).milestones@
                == kv_val(old(self)@, id).milestones@,
    {
        if !str_eq_string(caller, &self.authority) {
            return Err("only authority");
        }
        match self.grants.index_of(id) {
            Some(i) => {
                let placeholder = Grant {
                    applicant: String::new(),
                    requested_amount: 0,
                    approved_amount: 0,
                    status: GrantStatus::Submitted,
                    milestones: Vec::new(),
                    disbursed: 0,
                };
                let g = self.grants.replace_val_at(i, placeholder);
                self.grants.set_val_at(i, Grant { status: GrantStatus::Rejected, ..g });
                proof {
                    kv_idx_unique(old(self)@, id, i as int);
                    kv_idx_unique(self@, id, i as int);
                }
                Ok(())
            },
            None => Err("not found"),
        }
    }

    /// The authority marks one milestone of a grant complete.
    pub fn mark_milestone(&mut self, caller: &str, id: u64, index: usize) -> (r: Result<
        (),
        &'static str,
    >)
        requires
            old(self).wf(),
        ensures
            final(self).wf(),
            final(self).next_id == old(self).next_id,
            caller@ != old(self).authority@ ==> r == Err::<(), &'static str>("only authority")
                && *final(self) == *old(self),
            caller@ == old(self).authority@ && !kv_has(old(self)@, id) ==> r == Err::<
                (),
                &'static str,
            >("not found") && *final(self) == *old(self),
            caller@ == old(self).authority@ && kv_has(old(self)@, id) && index >= kv_val(
                old(self)@,
                id,
            ).milestones@.len() ==> r == Err::<(), &'static str>("invalid milestone") && final(self)@ == old(self)@,
            caller@ == old(self).authority@ && kv_has(old(self)@, id) && index < kv_val(
                old(self)@,
                id,
            ).milestones@.len() ==> r == Ok::<(), &'static str>(()) && final(self)@ == old(self)@.update(
                kv_idx(old(self)@, id),
                (id, kv_val(final(self)@, id)),
            ) && kv_val(final(self)@, id).status == kv_val(old(self)@, id).status && kv_val(
                final(self)@,
                id,
            ).disbursed == kv_val(old(self)@, id).disbursed && kv_val(final(self)@, id).milestones@
                == kv_val(old(self)@, id).milestones@.update(
                index as int,
                (Milestone {
                    description: kv_val(old(self)@, id).milestones@[index as int].description,
                    amount: kv_val(old(self)@, id).milestones@[index as int].amount,
                    completed: true,
                }),
            ),
    {
        if !str_eq_string(caller, &self.authority) {
            return Err("only authority");
        }
        match self.grants.index_of(id) {
            Some(i) => {
                let placeholder = Grant {
                    applicant: String::new(),
                    requested_amount: 0,
                    approved_amount: 0,
                    status: GrantStatus::Submitted,
                    milestones: Vec::new(),
                    disbursed: 0,
                };
                let mut g = self.grants.replace_val_at(i, placeholder);
                if index >= g.milestones.len() {
                    self.grants.set_val_at(i, g);
                    proof {
                        assert(self@ =~= old(self)@);
                    }
                    return Err("invalid milestone");
                }
                let m = g.milestones.remove(index);
                let m2 = Milestone {
                    description: m.description,
                    amount: m.amount,
                    completed: true,
                };
                g.milestones.insert(index, m2);
                proof {
                    assert(g.milestones@ =~= kv_val(old(self)@, id).milestones@.update(
                        index as int,
                        g.milestones@[index as int],
                    ));
                }
                self.grants.set_val_at(i, g);
                proof {
                    kv_idx_unique(old(self)@, id, i as int);
                    kv_idx_unique(self@, id, i as int);
                }
                Ok(())
            },
            None => Err("not found"),
        }
    }

    /// The authority disburses `amount` against an approved grant, never past
    /// the approval; once everything approved is disbursed and every
    /// milestone complete, the grant completes.
    pub fn disburse(&mut self, caller: &str, id: u64, amount: u128) -> (r: Result<
        (),
        &'static str,
    >)
        requires
            old(self).wf(),
        ensures
            final(self).wf(),
            final(self).next_id == old(self).next_id,
            caller@ != old(self).authority@ ==> r == Err::<(), &'static str>("only authority")
                && *final(self) == *old(self),
            caller@ == old(self).authority@ && !kv_has(old(self)@, id) ==> r == Err::<
                (),
                &'static str,
            >("not found") && *final(self) == *old(self),
            caller@ == old(self).authority@ && kv_has(old(self)@, id) && kv_val(
                old(self)@,
                id,
            ).status != GrantStatus::Approved ==> r == Err::<(), &'static str>("not approved")
                && final(self)@ == old(self)@,
            caller@ == old(self).authority@ && kv_has(old(self)@, id) && kv_val(
                old(self)@,
                id,
            ).status == GrantStatus::Approved && s_add(
                kv_val(old(self)@, id).disbursed as int,
                amount as int,
            ) > kv_val(old(self)@, id).approved_amount ==> r == Err::<(), &'static str>(
                "exceeds approval",
            ) && final(self)@ == old(self)@,
            caller@ == old(self).authority@ && kv_has(old(self)@, id) && kv_val(
                old(self)@,
                id,
            ).status == GrantStatus::Approved && s_add(
                kv_val(old(self)@, id).disbursed as int,
                amount as int,
            ) <= kv_val(old(self)@, id).approved_amount ==> ({
                let grown = s_add(kv_val(old(self)@, id).disbursed as int, amount as int);
                let done = grown == kv_val(old(self)@, id).approved_amount && all_completed(
                    kv_val(old(self)@, id).milestones@,
                );
                &&& r == Ok::<(), &'static str>(())
                &&& final(self)@ == old(self)@.update(
                    kv_idx(old(self)@, id),
                    (id, kv_val(final(self)@, id)),
                )
                &&& kv_val(final(self)@, id).disbursed == grown
                &&& kv_val(final(self)@, id).status == (if done {
                    GrantStatus::Completed
                } else {
                    GrantStatus::Approved
                })
                &&& kv_val(final(self)@, id).milestones@ == kv_val(old(self)@, id).milestones@
                &&& kv_val(final(self)@, id).approved_amount == kv_val(
                    old(self)@,
                    id,
                ).approved_amount
            }),
    {
        if !str_eq_string(caller, &self.authority) {
            return Err("only authority");
        }
        match self.grants.index_of(id) {
            Some(i) => {
                if !matches!(self.grants.val_at(i).status, GrantStatus::Approved) {
                    proof {
                        assert(self@ =~= old(self)@);
                    }
                    return Err("not approved");
                }
                let placeholder = Grant {
                    applicant: String::new(),
                    requested_amount: 0,
                    approved_amount: 0,
                    status: GrantStatus::Submitted,
                    milestones: Vec::new(),
                    disbursed: 0,
                };
                let mut g = self.grants.replace_val_at(i, placeholder);
                let grown = sat_add_u128(g.disbursed, amount);
                if grown > g.approved_amount {
                    self.grants.set_val_at(i, g);
                    proof {
                        assert(self@ =~= old(self)@);
                    }
                    return Err("exceeds approval");
                }
                g.disbursed = grown;
                let n: usize = g.milestones.len();
                let mut done = true;
                let mut k: usize = 0;
                while k < n
                    invariant
                        0 <= k <= n,
                        n == g.milestones@.len(),
                        done == (forall|j: int| 0 <= j < k ==> (#[trigger] g.milestones@[j]).completed),
                    decreases n - k,
                {
                    if !g.milestones[k].completed {
                        done = false;
                    }
                    k += 1;
                }
                if g.disbursed == g.approved_amount && done {
                    g.status = GrantStatus::Completed;
                }
                self.grants.set_val_at(i, g);
                proof {
                    kv_idx_unique(old(self)@, id, i as int);
                    kv_idx_unique(self@, id, i as int);
                }
                Ok(())
            },
            None => Err("not found"),
        }
    }
}

} // verus!
