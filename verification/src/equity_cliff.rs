use vstd::prelude::*;
use crate::arith::{s_add, s_mul, s_sub, sat_add_u128, sat_mul_u128, sat_sub_u128};
use crate::kv::{kv_has, kv_idx, kv_val, kv_idx_unique};
use crate::smap::StrMap;

verus! {

/// An equity grant: a total amount vesting linearly over `duration_seconds`
/// from `start`, locked entirely until the cliff has passed.
#[derive(Clone, Copy)]
pub struct CliffGrant {
    pub total_amount: u128,
    pub start: u64,
    pub cliff_seconds: u64,
    pub duration_seconds: u64,
    pub claimed: u128,
}

/// What a grant releases at `now`: nothing before the cliff; after it,
/// time-proportional vesting less what was already claimed.
pub open spec fn spec_releasable(g: CliffGrant, now: u64) -> int {
    if now < g.start + g.cliff_seconds {
        0
    } else {
        let elapsed = if now >= g.start {
            now - g.start
        } else {
            0
        };
        let vested = if elapsed >= g.duration_seconds {
            g.total_amount as int
        } else {
            s_mul(g.total_amount as int, elapsed) / (if g.duration_seconds >= 1 {
                g.duration_seconds as int
            } else {
                1
            })
        };
        s_sub(vested, g.claimed as int)
    }
}

/// A register of cliff-vesting equity grants, one per employee.
pub struct EquityCliff {
    pub grants: StrMap<CliffGrant>,
}

impl EquityCliff {
    pub open spec fn view(&self) -> Seq<(Seq<char>, CliffGrant)> {
        self.grants@
    }

    pub open spec fn wf(&self) -> bool {
        self.grants.wf()
    }

    pub fn new() -> (r: Self)
        ensures
            r.wf(),
            r@ == Seq::<(Seq<char>, CliffGrant)>::empty(),
    {
        EquityCliff { grants: StrMap::new() }
    }

    /// Grants (or replaces) an employee's schedule with nothing claimed yet.
    pub fn add_grant(
        &mut self,
        employee: String,
        total_amount: u128,
        start: u64,
        cliff_seconds: u64,
        duration_seconds: u64,
    )
        requires
            old(self).wf(),
        ensures
            final(self).wf(),
            kv_has(old(self)@, employee@) ==> final(self)@ == old(self)@.update(
                kv_idx(old(self)@, employee@),
                (
                    employee@,
                    (CliffGrant { total_amount, start, cliff_seconds, duration_seconds, claimed: 0 }),
                ),
            ),
            !kv_has(old(self)@, employee@) ==> final(self)@ == old(self)@.push(
                (
                    employee@,
                    (CliffGrant { total_amount, start, cliff_seconds, duration_seconds, claimed: 0 }),
                ),
            ),
    {
        self.grants.insert(
            employee,
            CliffGrant { total_amount, start, cliff_seconds, duration_seconds, claimed: 0 },
        );
    }

    /// What `employee` could claim at `now`, or nothing for an unknown one.
    pub fn releasable_amount(&self, employee: &str, now: u64) -> (r: Option<u128>)
        requires
            self.wf(),
            kv_has(self@, employee@) ==> kv_val(self@, employee@).start + kv_val(
                self@,
                employee@,
            ).cliff_seconds <= u64::MAX,
        ensures
            match r {
                Some(v) => kv_has(self@, employee@) && v == spec_releasable(
                    kv_val(self@, employee@),
                    now,
                ),
                None => !kv_has(self@, employee@),
            },
    {
        match self.grants.get(employee) {
            Some(g) => {
                if now < g.start + g.cliff_seconds {
                    return Some(0);
                }
                let elapsed: u64 = if now >= g.start {
                    now - g.start
                } else {
                    0
                };
                let vested: u128 = if elapsed >= g.duration_seconds {
                    g.total_amount
                } else {
                    let denom: u64 = if g.duration_seconds >= 1 {
                        g.duration_seconds
                    } else {
                        1
                    };
                    sat_mul_u128(g.total_amount, elapsed as u128) / (denom as u128)
                };
                Some(sat_sub_u128(vested, g.claimed))
            },
            None => None,
        }
    }

    /// Claims everything releasable at `now`; an employee with nothing vested
    /// (or none at all) fails and changes nothing.
    pub fn claim(&mut self, employee: &str, now: u64) -> (r: Result<u128, &'static str>)
        requires
            old(self).wf(),
            kv_has(old(self)@, employee@) ==> kv_val(old(self)@, employee@).start + kv_val(
                old(self)@,
                employee@,
            ).cliff_seconds <= u64::MAX,
        ensures
            final(self).wf(),
            !kv_has(old(self)@, employee@) ==> r == Err::<u128, &'static str>("nothing vested")
                && *final(self) == *old(self),
            kv_has(old(self)@, employee@) && spec_releasable(kv_val(old(self)@, employee@), now)
                == 0 ==> r == Err::<u128, &'static str>("nothing vested") && *final(self) == *old(self),
            kv_has(old(self)@, employee@) && spec_releasable(kv_val(old(self)@, employee@), now)
                > 0 ==> r == Ok::<u128, &'static str>(
                spec_releasable(kv_val(old(self)@, employee@), now) as u128,
            ) && final(self)@ == old(self)@.update(
                kv_idx(old(self)@, employee@),
                (
                    employee@,
                    (CliffGrant {
                        claimed: s_add(
                            kv_val(old(self)@, employee@).claimed as int,
                            spec_releasable(kv_val(old(self)@, employee@), now),
                        ) as u128,
                        ..kv_val(old(self)@, employee@)
                    }),
                ),
            ),
    {
        let releasable: u128 = match self.releasable_amount(employee, now) {
            Some(v) => v,
            None => 0,
        };
        if releasable == 0 {
            return Err("nothing vested");
        }
        match self.grants.index_of(employee) {
            Some(i) => {
                let g = *self.grants.val_at(i);
                self.grants.set_val_at(
                    i,
                    CliffGrant { claimed: sat_add_u128(g.claimed, releasable), ..g },
                );
                proof {
                    kv_idx_unique(old(self)@, employee@, kv_idx(old(self)@, employee@));
                }
                Ok(releasable)
            },
            None => Err("no grant"),
        }
    }
}

} // verus!
