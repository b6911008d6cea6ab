use vstd::prelude::*;
use crate::arith::{s_add, s_mul, s_sub, sat_add_u128, sat_mul_u128, sat_sub_u128};
use crate::kv::{kv_has, kv_idx, kv_val, kv_idx_unique};
use crate::smap::StrMap;

verus! {

/// A vesting schedule: a total grant released linearly over `duration`
/// seconds from `start`, locked entirely until the cliff has passed.
#[derive(Clone, Copy)]
pub struct VestingSchedule {
    pub total: u128,
    pub released: u128,
    pub start: u64,
    pub cliff: u64,
    pub duration: u64,
}

/// What a schedule lets its beneficiary withdraw at `now`: nothing before the
/// cliff; after it, time-proportional vesting less what was already released.
pub open spec fn spec_releasable(g: VestingSchedule, now: u64) -> int {
    if now < g.start + g.cliff {
        0
    } else {
        let elapsed = if now >= g.start {
            now - g.start
        } else {
            0
        };
        let vested = if elapsed >= g.duration {
            g.total as int
        } else {
            s_mul(g.total as int, elapsed) / (if g.duration >= 1 {
                g.duration as int
            } else {
                1
            })
        };
        s_sub(vested, g.released as int)
    }
}

/// A vesting ledger: one linear schedule per beneficiary.
pub struct TokenVesting {
    pub schedules: StrMap<VestingSchedule>,
}

impl TokenVesting {
    pub open spec fn view(&self) -> Seq<(Seq<char>, VestingSchedule)> {
        self.schedules@
    }

    pub open spec fn wf(&self) -> bool {
        self.schedules.wf()
    }

    pub fn new() -> (r: Self)
        ensures
            r.wf(),
            r@ == Seq::<(Seq<char>, VestingSchedule)>::empty(),
    {
        TokenVesting { schedules: StrMap::new() }
    }

    /// Grants (or replaces) a schedule with nothing released yet.
    pub fn create_schedule(
        &mut self,
        beneficiary: String,
        total: u128,
        start: u64,
        cliff: u64,
        duration: u64,
    )
        requires
            old(self).wf(),
        ensures
            final(self).wf(),
            kv_has(old(self)@, beneficiary@) ==> final(self)@ == old(self)@.update(
                kv_idx(old(self)@, beneficiary@),
                (beneficiary@, (VestingSchedule { total, released: 0, start, cliff, duration })),
            ),
            !kv_has(old(self)@, beneficiary@) ==> final(self)@ == old(self)@.push(
                (beneficiary@, (VestingSchedule { total, released: 0, start, cliff, duration })),
            ),
    {
        self.schedules.insert(
            beneficiary,
            VestingSchedule { total, released: 0, start, cliff, duration },
        );
    }

    /// What `beneficiary` could withdraw at `now`, or nothing for an unknown
    /// one.
    pub fn releasable(&self, beneficiary: &str, now: u64) -> (r: Option<u128>)
        requires
            self.wf(),
            kv_has(self@, beneficiary@) ==> kv_val(self@, beneficiary@).start + kv_val(
                self@,
                beneficiary@,
            ).cliff <= u64::MAX,
        ensures
            match r {
                Some(v) => kv_has(self@, beneficiary@) && v == spec_releasable(
                    kv_val(self@, beneficiary@),
                    now,
                ),
                None => !kv_has(self@, beneficiary@),
            },
    {
        match self.schedules.get(beneficiary) {
            Some(g) => {
                if now < g.start + g.cliff {
                    return Some(0);
                }
                let elapsed: u64 = if now >= g.start {
                    now - g.start
                } else {
                    0
                };
                let vested: u128 = if elapsed >= g.duration {
                    g.total
                } else {
                    let denom: u64 = if g.duration >= 1 {
                        g.duration
                    } else {
                        1
                    };
                    sat_mul_u128(g.total, elapsed as u128) / (denom as u128)
                };
                Some(sat_sub_u128(vested, g.released))
            },
            None => None,
        }
    }

    /// Withdraws everything releasable at `now`; a beneficiary with nothing
    /// vested (or none at all) fails and changes nothing.
    pub fn claim(&mut self, beneficiary: &str, now: u64) -> (r: Result<u128, &'static str>)
        requires
            old(self).wf(),
            kv_has(old(self)@, beneficiary@) ==> kv_val(old(self)@, beneficiary@).start + kv_val(
                old(self)@,
                beneficiary@,
            ).cliff <= u64::MAX,
        ensures
            final(self).wf(),
            !kv_has(old(self)@, beneficiary@) ==> r == Err::<u128, &'static str>("nothing vested")
                && *final(self) == *old(self),
            kv_has(old(self)@, beneficiary@) && spec_releasable(
                kv_val(old(self)@, beneficiary@),
                now,
            ) == 0 ==> r == Err::<u128, &'static str>("nothing vested") && *final(self) == *old(self),
            kv_has(old(self)@, beneficiary@) && spec_releasable(
                kv_val(old(self)@, beneficiary@),
                now,
            ) > 0 ==> r == Ok::<u128, &'static str>(
                spec_releasable(kv_val(old(self)@, beneficiary@), now) as u128,
            ) && final(self)@ == old(self)@.update(
                kv_idx(old(self)@, beneficiary@),
                (
                    beneficiary@,
                    (VestingSchedule {
                        released: s_add(
                            kv_val(old(self)@, beneficiary@).released as int,
                            spec_releasable(kv_val(old(self)@, beneficiary@), now),
                        ) as u128,
                        ..kv_val(old(self)@, beneficiary@)
                    }),
                ),
            ),
    {
        let releasable: u128 = match self.releasable(beneficiary, now) {
            Some(v) => v,
            None => 0,
        };
        if releasable == 0 {
            return Err("nothing vested");
        }
        match self.schedules.index_of(beneficiary) {
            Some(i) => {
                let g = *self.schedules.val_at(i);
                self.schedules.set_val_at(
                    i,
                    VestingSchedule { released: sat_add_u128(g.released, releasable), ..g },
                );
                proof {
                    kv_idx_unique(old(self)@, beneficiary@, kv_idx(old(self)@, beneficiary@));
                }
                Ok(releasable)
            },
            None => Err("no schedule"),
        }
    }
}

} // verus!
