use vstd::prelude::*;
use crate::idmap::IdMap;
use crate::kv::{kv_has, kv_idx, kv_val};
use crate::strutil::str_eq_string;

verus! {

/// The lifecycle of a bounty.
#[derive(Clone, Copy, PartialEq, Eq, Structural)]
pub enum BountyStatus {
    Open,
    Assigned,
    Submitted,
    Released,
    Refunded,
}

/// A bounty: its creator, escrowed deposit, assigned hunter, submitted proof
/// and lifecycle state.
pub struct Bounty {
    pub creator: String,
    pub deposit: u128,
    pub hunter: Option<String>,
    pub proof_text: Option<String>,
    pub status: BountyStatus,
}

/// An escrow of bounties under sequential identifiers.
pub struct BountyEscrow {
    pub bounties: IdMap<Bounty>,
    pub next_id: u64,
}

impl BountyEscrow {
    pub open spec fn view(&self) -> Seq<(u64, Bounty)> {
        self.bounties@
    }

    pub open spec fn wf(&self) -> bool {
        &&& self.bounties.wf()
        &&& forall|i: int| 0 <= i < self.bounties@.len() ==> (#[trigger] self.bounties@[i]).0
            <= self.next_id
    }

    pub fn new() -> (r: Self)
        ensures
            r.wf(),
            r@ == Seq::<(u64, Bounty)>::empty(),
            r.next_id == 0,
    {
        BountyEscrow { bounties: IdMap::new(), next_id: 0 }
    }

    /// Opens a bounty with the given deposit and returns its fresh
    /// identifier.
    pub fn create_bounty(&mut self, creator: String, deposit: u128) -> (r: u64)
        requires
            old(self).wf(),
            old(self).next_id < u64::MAX,
        ensures
            final(self).wf(),
            r == old(self).next_id + 1,
            final(self).next_id == r,
            final(self)@ == old(self)@.push(
                (
                    r,
                    (Bounty {
                        creator,
                        deposit,
                        hunter: None,
                        proof_text: None,
                        status: BountyStatus::Open,
                    }),
                ),
            ),
    {
        self.next_id += 1;
        proof {
            assert(!kv_has(self.bounties@, self.next_id));
        }
        self.bounties.insert(
            self.next_id,
            Bounty {
                creator,
                deposit,
                hunter: None,
                proof_text: None,
                status: BountyStatus::Open,
            },
        );
        self.next_id
    }

    /// The creator assigns a hunter to an open bounty.
    pub fn assign_hunter(&mut self, id: u64, caller: &str, hunter: String) -> (r: Result<
        (),
        &'static str,
    >)
        requires
            old(self).wf(),
        ensures
            final(self).wf(),
            final(self).next_id == old(self).next_id,
            !kv_has(old(self)@, id) ==> r == Err::<(), &'static str>("not found") && final(self)@
                == old(self)@,
            kv_has(old(self)@, id) && kv_val(old(self)@, id).creator@ != caller@ ==> r == Err::<
                (),
                &'static str,
            >("unauthorised") && final(self)@ == old(self)@,
            kv_has(old(self)@, id) && kv_val(old(self)@, id).creator@ == caller@ && kv_val(
                old(self)@,
                id,
            ).status != BountyStatus::Open ==> r == Err::<(), &'static str>("not open") && final(self)@ == old(self)@,
            kv_has(old(self)@, id) && kv_val(old(self)@, id).creator@ == caller@ && kv_val(
                old(self)@,
                id,
            ).status == BountyStatus::Open ==> r == Ok::<(), &'static str>(()) && final(self)@
                == old(self)@.update(
                kv_idx(old(self)@, id),
                (
                    id,
                    (Bounty {
                        creator: kv_val(old(self)@, id).creator,
                        deposit: kv_val(old(self)@, id).deposit,
                        hunter: Some(hunter),
                        proof_text: kv_val(old(self)@, id).proof_text,
                        status: BountyStatus::Assigned,
                    }),
                ),
            ),
    {
        match self.bounties.index_of(id) {
            Some(i) => {
                let b = self.bounties.val_at(i);
                if !str_eq_string(caller, &b.creator) {
                    return Err("unauthorised");
                }
                if !matches!(b.status, BountyStatus::Open) {
                    return Err("not open");
                }
                let b2 = Bounty {
                    creator: b.creator.clone(),
                    deposit: b.deposit,
                    hunter: Some(hunter),
                    proof_text: match &b.proof_text {
                        Some(p) => Some(p.clone()),
                        None => None,
                    },
                    status: BountyStatus::Assigned,
                };
                self.bounties.set_val_at(i, b2);
                Ok(())
            },
            None => Err("not found"),
        }
    }

    /// The assigned hunter submits a proof for an assigned bounty.
    pub fn submit_proof(&mut self, id: u64, caller: &str, proof_text: String) -> (r: Result<
        (),
        &'static str,
    >)
        requires
            old(self).wf(),
        ensures
            final(self).wf(),
            final(self).next_id == old(self).next_id,
            !kv_has(old(self)@, id) ==> r == Err::<(), &'static str>("not found") && final(self)@
                == old(self)@,
            kv_has(old(self)@, id) && !(kv_val(old(self)@, id).hunter is Some && kv_val(
                old(self)@,
                id,
            ).hunter->0@ == caller@ && kv_val(old(self)@, id).status == BountyStatus::Assigned)
                ==> r == Err::<(), &'static str>("unauthorised") && final(self)@ == old(self)@,
            kv_has(old(self)@, id) && kv_val(old(self)@, id).hunter is Some && kv_val(
                old(self)@,
                id,
            ).hunter->0@ == caller@ && kv_val(old(self)@, id).status == BountyStatus::Assigned
                ==> r == Ok::<(), &'static str>(()) && final(self)@ == old(self)@.update(
                kv_idx(old(self)@, id),
                (
                    id,
                    (Bounty {
                        creator: kv_val(old(self)@, id).creator,
                        deposit: kv_val(old(self)@, id).deposit,
                        hunter: kv_val(old(self)@, id).hunter,
                        proof_text: Some(proof_text),
                        status: BountyStatus::Submitted,
                    }),
                ),
            ),
    {
        match self.bounties.index_of(id) {
            Some(i) => {
                let b = self.bounties.val_at(i);
                let authorised: bool = match &b.hunter {
                    Some(h) => {
                        str_eq_string(caller, h) && matches!(b.status, BountyStatus::Assigned)
                    },
                    None => false,
                };
                if !authorised {
                    return Err("unauthorised");
                }
                let b2 = Bounty {
                    creator: b.creator.clone(),
                    deposit: b.deposit,
                    hunter: match &b.hunter {
                        Some(h) => Some(h.clone()),
                        None => None,
                    },
                    proof_text: Some(proof_text),
                    status: BountyStatus::Submitted,
                };
                self.bounties.set_val_at(i, b2);
                Ok(())
            },
            None => Err("not found"),
        }
    }

    /// The creator releases the deposit of a submitted bounty to the hunter.
    pub fn release(&mut self, id: u64, caller: &str) -> (r: Result<u128, &'static str>)
        requires
            old(self).wf(),
        ensures
            final(self).wf(),
            final(self).next_id == old(self).next_id,
            !kv_has(old(self)@, id) ==> r == Err::<u128, &'static str>("not found") && final(self)@
                == old(self)@,
            kv_has(old(self)@, id) && kv_val(old(self)@, id).creator@ != caller@ ==> r == Err::<
                u128,
                &'static str,
            >("unauthorised") && final(self)@ == old(self)@,
            kv_has(old(self)@, id) && kv_val(old(self)@, id).creator@ == caller@ && kv_val(
                old(self)@,
                id,
            ).status != BountyStatus::Submitted ==> r == Err::<u128, &'static str>("not submitted")
                && final(self)@ == old(self)@,
            kv_has(old(self)@, id) && kv_val(old(self)@, id).creator@ == caller@ && kv_val(
                old(self)@,
                id,
            ).status == BountyStatus::Submitted ==> r == Ok::<u128, &'static str>(
                kv_val(old(self)@, id).deposit,
            ) && final(self)@ == old(self)@.update(
                kv_idx(old(self)@, id),
                (
                    id,
                    (Bounty {
                        creator: kv_val(old(self)@, id).creator,
                        deposit: kv_val(old(self)@, id).deposit,
                        hunter: kv_val(old(self)@, id).hunter,
                        proof_text: kv_val(old(self)@, id).proof_text,
                        status: BountyStatus::Released,
                    }),
                ),
            ),
    {
        match self.bounties.index_of(id) {
            Some(i) => {
                let b = self.bounties.val_at(i);
                if !str_eq_string(caller, &b.creator) {
                    return Err("unauthorised");
                }
                if !matches!(b.status, BountyStatus::Submitted) {
                    return Err("not submitted");
                }
                let deposit = b.deposit;
                let b2 = Bounty {
                    creator: b.creator.clone(),
                    deposit: b.deposit,
                    hunter: match &b.hunter {
                        Some(h) => Some(h.clone()),
                        None => None,
                    },
                    proof_text: match &b.proof_text {
                        Some(p) => Some(p.clone()),
                        None => None,
                    },
                    status: BountyStatus::Released,
                };
                self.bounties.set_val_at(i, b2);
                Ok(deposit)
            },
            None => Err("not found"),
        }
    }

    /// The creator reclaims the deposit of any bounty not yet released.
    pub fn refund(&mut self, id: u64, caller: &str) -> (r: Result<u128, &'static str>)
        requires
            old(self).wf(),
        ensures
            final(self).wf(),
            final(self).next_id == old(self).next_id,
            !kv_has(old(self)@, id) ==> r == Err::<u128, &'static str>("not found") && final(self)@
                == old(self)@,
            kv_has(old(self)@, id) && kv_val(old(self)@, id).creator@ != caller@ ==> r == Err::<
                u128,
                &'static str,
            >("unauthorised") && final(self)@ == old(self)@,
            kv_has(old(self)@, id) && kv_val(old(self)@, id).creator@ == caller@ && kv_val(
                old(self)@,
                id,
            ).status == BountyStatus::Released ==> r == Err::<u128, &'static str>(
                "already released",
            ) && final(self)@ == old(self)@,
            kv_has(old(self)@, id) && kv_val(old(self)@, id).creator@ == caller@ && kv_val(
                old(self)@,
                id,
            ).status != BountyStatus::Released ==> r == Ok::<u128, &'static str>(
                kv_val(old(self)@, id).deposit,
            ) && final(self)@ == old(self)@.update(
                kv_idx(old(self)@, id),
                (
                    id,
                    (Bounty {
                        creator: kv_val(old(self)@, id).creator,
                        deposit: kv_val(old(self)@, id).deposit,
                        hunter: kv_val(old(self)@, id).hunter,
                        proof_text: kv_val(old(self)@, id).proof_text,
                        status: BountyStatus::Refunded,
                    }),
                ),
            ),
    {
        match self.bounties.index_of(id) {
            Some(i) => {
                let b = self.bounties.val_at(i);
                if !str_eq_string(caller, &b.creator) {
                    return Err("unauthorised");
                }
                if matches!(b.status, BountyStatus::Released) {
                    return Err("already released");
                }
                let deposit = b.deposit;
                let b2 = Bounty {
                    creator: b.creator.clone(),
                    deposit: b.deposit,
                    hunter: match &b.hunter {
                        Some(h) => Some(h.clone()),
                        None => None,
                    },
                    proof_text: match &b.proof_text {
                        Some(p) => Some(p.clone()),
                        None => None,
                    },
                    status: BountyStatus::Refunded,
                };
                self.bounties.set_val_at(i, b2);
                Ok(deposit)
            },
            None => Err("not found"),
        }
    }
}

} // verus!
