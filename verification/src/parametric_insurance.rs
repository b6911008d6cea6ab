use vstd::prelude::*;
use crate::idmap::IdMap;
use crate::kv::{kv_has, kv_idx, kv_val};
use crate::strutil::str_eq_string;

verus! {

/// A parametric policy: it pays a fixed amount to its holder once a reported
/// measurement reaches the trigger value.
pub struct Policy {
    pub holder: String,
    pub premium: u128,
    pub trigger_value: i64,
    pub payout: u128,
    pub active: bool,
    pub triggered: bool,
}

/// A book of parametric policies under sequential identifiers.
pub struct ParametricInsurance {
    pub insurer: String,
    pub policies: IdMap<Policy>,
    pub next_id: u64,
}

impl ParametricInsurance {
    pub open spec fn view(&self) -> Seq<(u64, Policy)> {
        self.policies@
    }

    pub open spec fn wf(&self) -> bool {
        &&& self.policies.wf()
        &&& forall|i: int| 0 <= i < self.policies@.len() ==> (#[trigger] self.policies@[i]).0
            <= self.next_id
    }

    pub fn new(insurer: String) -> (r: Self)
        ensures
            r.wf(),
            r.insurer == insurer,
            r@ == Seq::<(u64, Policy)>::empty(),
            r.next_id == 0,
    {
        ParametricInsurance { insurer, policies: IdMap::new(), next_id: 0 }
    }

    /// Opens an active, untriggered policy and returns its fresh identifier.
    pub fn create_policy(
        &mut self,
        holder: String,
        premium: u128,
        trigger_value: i64,
        payout: u128,
    ) -> (r: u64)
        requires
            old(self).wf(),
            old(self).next_id < u64::MAX,
        ensures
            final(self).wf(),
            r == old(self).next_id + 1,
            final(self).next_id == r,
            final(self)@ == old(self)@.push(
                (
                    r,
                    (Policy { holder, premium, trigger_value, payout, active: true, triggered: false }),
                ),
            ),
    {
        self.next_id += 1;
        proof {
            assert(!kv_has(self.policies@, self.next_id));
        }
        self.policies.insert(
            self.next_id,
            Policy { holder, premium, trigger_value, payout, active: true, triggered: false },
        );
        self.next_id
    }

    /// Reports a measurement against an active policy; reaching the trigger
    /// value trips the policy and deactivates it. Says whether it tripped.
    pub fn report_measurement(&mut self, id: u64, value: i64) -> (r: Result<bool, &'static str>)
        requires
            old(self).wf(),
        ensures
            final(self).wf(),
            final(self).next_id == old(self).next_id,
            !kv_has(old(self)@, id) ==> r == Err::<bool, &'static str>("not found") && *final(self)
                == *old(self),
            kv_has(old(self)@, id) && !kv_val(old(self)@, id).active ==> r == Err::<
                bool,
                &'static str,
            >("inactive") && *final(self) == *old(self),
            kv_has(old(self)@, id) && kv_val(old(self)@, id).active && value < kv_val(
                old(self)@,
                id,
            ).trigger_value ==> r == Ok::<bool, &'static str>(false) && *final(self) == *old(self),
            kv_has(old(self)@, id) && kv_val(old(self)@, id).active && value >= kv_val(
                old(self)@,
                id,
            ).trigger_value ==> r == Ok::<bool, &'static str>(true) && final(self)@ == old(self)@.update(
                kv_idx(old(self)@, id),
                (
                    id,
                    (Policy {
                        holder: kv_val(old(self)@, id).holder,
                        premium: kv_val(old(self)@, id).premium,
                        trigger_value: kv_val(old(self)@, id).trigger_value,
                        payout: kv_val(old(self)@, id).payout,
                        active: false,
                        triggered: true,
                    }),
                ),
            ),
    {
        match self.policies.index_of(id) {
            Some(i) => {
                let p = self.policies.val_at(i);
                if !p.active {
                    return Err("inactive");
                }
                if value >= p.trigger_value {
                    let updated = Policy {
                        holder: p.holder.clone(),
                        premium: p.premium,
                        trigger_value: p.trigger_value,
                        payout: p.payout,
                        active: false,
                        triggered: true,
                    };
                    self.policies.set_val_at(i, updated);
                    Ok(true)
                } else {
                    Ok(false)
                }
            },
            None => Err("not found"),
        }
    }

    /// The holder claims the payout of a tripped policy, once.
    pub fn claim(&mut self, id: u64, caller: &str) -> (r: Result<u128, &'static str>)
        requires
            old(self).wf(),
        ensures
            final(self).wf(),
            final(self).next_id == old(self).next_id,
            !kv_has(old(self)@, id) ==> r == Err::<u128, &'static str>("not found") && *final(self)
                == *old(self),
            kv_has(old(self)@, id) && kv_val(old(self)@, id).holder@ != caller@ ==> r == Err::<
                u128,
                &'static str,
            >("forbidden") && *final(self) == *old(self),
            kv_has(old(self)@, id) && kv_val(old(self)@, id).holder@ == caller@ && !kv_val(
                old(self)@,
                id,
            ).triggered ==> r == Err::<u128, &'static str>("not triggered") && *final(self) == *old(self),
            kv_has(old(self)@, id) && kv_val(old(self)@, id).holder@ == caller@ && kv_val(
                old(self)@,
                id,
            ).triggered ==> r == Ok::<u128, &'static str>(kv_val(old(self)@, id).payout) && final(self)@ == old(self)@.update(
                kv_idx(old(self)@, id),
                (
                    id,
                    (Policy {
                        holder: kv_val(old(self)@, id).holder,
                        premium: kv_val(old(self)@, id).premium,
                        trigger_value: kv_val(old(self)@, id).trigger_value,
                        payout: kv_val(old(self)@, id).payout,
                        active: kv_val(old(self)@, id).active,
                        triggered: false,
                    }),
                ),
            ),
    {
        match self.policies.index_of(id) {
            Some(i) => {
                let p = self.policies.val_at(i);
                if !str_eq_string(caller, &p.holder) {
                    return Err("forbidden");
                }
                if !p.triggered {
                    return Err("not triggered");
                }
                let payout = p.payout;
                let updated = Policy {
                    holder: p.holder.clone(),
                    premium: p.premium,
                    trigger_value: p.trigger_value,
                    payout: p.payout,
                    active: p.active,
                    triggered: false,
                };
                self.policies.set_val_at(i, updated);
                Ok(payout)
            },
            None => Err("not found"),
        }
    }
}

} // verus!
