use vstd::prelude::*;
use crate::arith::s_add;
use crate::arith::sat_add_u128;
use crate::idmap::IdMap;
use crate::kv::{kv_has, kv_idx, kv_val};

verus! {

/// A ceded-risk contract: parties, premium, payout cap and claims so far.
pub struct ReinsuranceContract {
    pub cedent: String,
    pub reinsurer: String,
    pub premium: u128,
    pub limit: u128,
    pub claims_paid: u128,
}

/// A registry of reinsurance contracts under sequential identifiers.
pub struct Reinsurance {
    pub contracts: IdMap<ReinsuranceContract>,
    pub next_id: u64,
}

impl Reinsurance {
    pub open spec fn view(&self) -> Seq<(u64, ReinsuranceContract)> {
        self.contracts@
    }

    pub open spec fn wf(&self) -> bool {
        &&& self.contracts.wf()
        &&& forall|i: int| 0 <= i < self.contracts@.len() ==> (#[trigger] self.contracts@[i]).0
            <= self.next_id
    }

    pub fn new() -> (r: Self)
        ensures
            r.wf(),
            r@ == Seq::<(u64, ReinsuranceContract)>::empty(),
            r.next_id == 0,
    {
        Reinsurance { contracts: IdMap::new(), next_id: 0 }
    }

    /// Opens a contract with no claims yet and returns its fresh identifier.
    pub fn create_contract(
        &mut self,
        cedent: String,
        reinsurer: String,
        premium: u128,
        limit: u128,
    ) -> (r: u64)
        requires
            old(self).wf(),
            old(self).next_id < u64::MAX,
        ensures
            final(self).wf(),
            r == old(self).next_id + 1,
            final(self).next_id == r,
            final(self)@ == old(self)@.push(
                (r, (ReinsuranceContract { cedent, reinsurer, premium, limit, claims_paid: 0 })),
            ),
    {
        self.next_id += 1;
        proof {
            assert(!kv_has(self.contracts@, self.next_id));
        }
        self.contracts.insert(
            self.next_id,
            ReinsuranceContract { cedent, reinsurer, premium, limit, claims_paid: 0 },
        );
        self.next_id
    }

    /// Records a claim against a contract; a claim that would push the total
    /// past the payout cap fails and changes nothing.
    pub fn record_claim(&mut self, id: u64, amount: u128) -> (r: Result<(), &'static str>)
        requires
            old(self).wf(),
        ensures
            final(self).wf(),
            final(self).next_id == old(self).next_id,
            !kv_has(old(self)@, id) ==> r == Err::<(), &'static str>("not found") && final(self)@
                == old(self)@,
            kv_has(old(self)@, id) && s_add(
                kv_val(old(self)@, id).claims_paid as int,
                amount as int,
            ) > kv_val(old(self)@, id).limit ==> r == Err::<(), &'static str>("limit exceeded")
                && final(self)@ == old(self)@,
            kv_has(old(self)@, id) && s_add(
                kv_val(old(self)@, id).claims_paid as int,
                amount as int,
            ) <= kv_val(old(self)@, id).limit ==> r == Ok::<(), &'static str>(()) && final(self)@
                == old(self)@.update(
                kv_idx(old(self)@, id),
                (
                    id,
                    (ReinsuranceContract {
                        cedent: kv_val(old(self)@, id).cedent,
                        reinsurer: kv_val(old(self)@, id).reinsurer,
                        premium: kv_val(old(self)@, id).premium,
                        limit: kv_val(old(self)@, id).limit,
                        claims_paid: s_add(
                            kv_val(old(self)@, id).claims_paid as int,
                            amount as int,
                        ) as u128,
                    }),
                ),
            ),
    {
        match self.contracts.index_of(id) {
            Some(i) => {
                let c = self.contracts.val_at(i);
                let grown = sat_add_u128(c.claims_paid, amount);
                if grown > c.limit {
                    return Err("limit exceeded");
                }
                let c2 = ReinsuranceContract {
                    cedent: c.cedent.clone(),
                    reinsurer: c.reinsurer.clone(),
                    premium: c.premium,
                    limit: c.limit,
                    claims_paid: grown,
                };
                self.contracts.set_val_at(i, c2);
                Ok(())
            },
            None => Err("not found"),
        }
    }
}

} // verus!
