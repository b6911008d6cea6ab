use vstd::prelude::*;
use crate::arith::trunc_div;
use crate::idmap::IdMap;
use crate::kv::{kv_has, kv_idx, kv_val, kv_idx_unique};

verus! {

/// An interest-rate swap: a fixed leg against a floating leg on a notional,
/// settled at fixed intervals against the most recent recorded floating rate.
pub struct Swap {
    pub fixed_payer: String,
    pub floating_payer: String,
    pub notional: u128,
    pub fixed_rate_bps: u32,
    pub payment_interval: u64,
    pub last_payment_time: u64,
    pub floating_rates: Vec<(u64, u32)>,
    pub cashflows: Vec<i128>,
}

/// The most recent recorded rate not after `now`, if any.
pub open spec fn latest_rate(rs: Seq<(u64, u32)>, now: u64) -> Option<u32>
    decreases rs.len(),
{
    if rs.len() == 0 {
        None
    } else if rs.last().0 <= now {
        Some(rs.last().1)
    } else {
        latest_rate(rs.drop_last(), now)
    }
}

/// The fixed payer's cashflow of one settlement at floating rate `fl`:
/// the rate difference in basis points, applied to the notional.
pub open spec fn cashflow_of(s: Swap, fl: u32) -> int {
    trunc_div((fl - s.fixed_rate_bps) * s.notional, 10_000)
}

/// A book of interest-rate swaps under sequential identifiers.
pub struct InterestRateSwap {
    pub swaps: IdMap<Swap>,
    pub next_id: u64,
}

impl InterestRateSwap {
    pub open spec fn view(&self) -> Seq<(u64, Swap)> {
        self.swaps@
    }

    pub open spec fn wf(&self) -> bool {
        &&& self.swaps.wf()
        &&& forall|i: int| 0 <= i < self.swaps@.len() ==> (#[trigger] self.swaps@[i]).0
            <= self.next_id
    }

    pub fn new() -> (r: Self)
        ensures
            r.wf(),
            r@ == Seq::<(u64, Swap)>::empty(),
            r.next_id == 0,
    {
        InterestRateSwap { swaps: IdMap::new(), next_id: 0 }
    }

    /// Opens a swap with no recorded rates or cashflows; its fresh identifier
    /// is returned.
    pub fn open_swap(
        &mut self,
        fixed_payer: String,
        floating_payer: String,
        notional: u128,
        fixed_rate_bps: u32,
        start_time: u64,
        payment_interval: u64,
    ) -> (r: u64)
        requires
            old(self).wf(),
            old(self).next_id < u64::MAX,
        ensures
            final(self).wf(),
            r == old(self).next_id + 1,
            final(self).next_id == r,
            final(self)@.len() == old(self)@.len() + 1,
            final(self)@ == old(self)@.push((r, final(self)@.last().1)),
            final(self)@.last().1.fixed_payer == fixed_payer,
            final(self)@.last().1.floating_payer == floating_payer,
            final(self)@.last().1.notional == notional,
            final(self)@.last().1.fixed_rate_bps == fixed_rate_bps,
            final(self)@.last().1.payment_interval == payment_interval,
            final(self)@.last().1.last_payment_time == start_time,
            final(self)@.last().1.floating_rates@ == Seq::<(u64, u32)>::empty(),
            final(self)@.last().1.cashflows@ == Seq::<i128>::empty(),
    {
        self.next_id += 1;
        proof {
            assert(!kv_has(self.swaps@, self.next_id));
        }
        self.swaps.insert(
            self.next_id,
            Swap {
                fixed_payer,
                floating_payer,
                notional,
                fixed_rate_bps,
                payment_interval,
                last_payment_time: start_time,
                floating_rates: Vec::new(),
                cashflows: Vec::new(),
            },
        );
        self.next_id
    }

    /// Records one floating-rate observation on a swap.
    pub fn record_floating_rate(&mut self, id: u64, timestamp: u64, rate_bps: u32) -> (r: Result<
        (),
        &'static str,
    >)
        requires
            old(self).wf(),
        ensures
            final(self).wf(),
            final(self).next_id == old(self).next_id,
            !kv_has(old(self)@, id) ==> r == Err::<(), &'static str>("not found") && *final(self)
                == *old(self),
            kv_has(old(self)@, id) ==> r == Ok::<(), &'static str>(()) && final(self)@ == old(
                self,
            )@.update(kv_idx(old(self)@, id), (id, kv_val(final(self)@, id))) && kv_val(
                final(self)@,
                id,
            ).floating_rates@ == kv_val(old(self)@, id).floating_rates@.push((timestamp, rate_bps))
                && kv_val(final(self)@, id).cashflows@ == kv_val(old(self)@, id).cashflows@
                && kv_val(final(self)@, id).last_payment_time == kv_val(
                old(self)@,
                id,
            ).last_payment_time && kv_val(final(self)@, id).notional == kv_val(
                old(self)@,
                id,
            ).notional && kv_val(final(self)@, id).fixed_rate_bps == kv_val(
                old(self)@,
                id,
            ).fixed_rate_bps && kv_val(final(self)@, id).payment_interval == kv_val(
                old(self)@,
                id,
            ).payment_interval,
    {
        match self.swaps.index_of(id) {
            Some(i) => {
                let placeholder = Swap {
                    fixed_payer: String::new(),
                    floating_payer: String::new(),
                    notional: 0,
                    fixed_rate_bps: 0,
                    payment_interval: 0,
                    last_payment_time: 0,
                    floating_rates: Vec::new(),
                    cashflows: Vec::new(),
                };
                let mut swap = self.swaps.replace_val_at(i, placeholder);
                swap.floating_rates.push((timestamp, rate_bps));
                self.swaps.set_val_at(i, swap);
                proof {
                    kv_idx_unique(self@, id, i as int);
                }
                Ok(())
            },
            None => Err("not found"),
        }
    }

    /// Settles a swap at `now`: one payment interval must have elapsed and a
    /// recorded rate must apply; the signed cashflow is appended and returned.
    pub fn settle(&mut self, id: u64, now: u64) -> (r: Result<i128, &'static str>)
        requires
            old(self).wf(),
            kv_has(old(self)@, id) ==> kv_val(old(self)@, id).last_payment_time + kv_val(
                old(self)@,
                id,
            ).payment_interval <= u64::MAX,
            kv_has(old(self)@, id) && kv_val(old(self)@, id).notional <= i128::MAX ==> u32::MAX
                * kv_val(old(self)@, id).notional <= i128::MAX,
        ensures
            final(self).wf(),
            final(self).next_id == old(self).next_id,
            !kv_has(old(self)@, id) ==> r == Err::<i128, &'static str>("not found") && *final(self)
                == *old(self),
            kv_has(old(self)@, id) && now < kv_val(old(self)@, id).last_payment_time + kv_val(
                old(self)@,
                id,
            ).payment_interval ==> r == Err::<i128, &'static str>("too early") && *final(self)
                == *old(self),
            kv_has(old(self)@, id) && now >= kv_val(old(self)@, id).last_payment_time + kv_val(
                old(self)@,
                id,
            ).payment_interval && latest_rate(kv_val(old(self)@, id).floating_rates@, now) is None
                ==> r == Err::<i128, &'static str>("missing rate") && final(self)@ == old(self)@,
            kv_has(old(self)@, id) && now >= kv_val(old(self)@, id).last_payment_time + kv_val(
                old(self)@,
                id,
            ).payment_interval && latest_rate(kv_val(old(self)@, id).floating_rates@, now) is Some
                && kv_val(old(self)@, id).notional > i128::MAX ==> r == Err::<i128, &'static str>(
                "overflow",
            ) && final(self)@ == old(self)@,
            kv_has(old(self)@, id) && now >= kv_val(old(self)@, id).last_payment_time + kv_val(
                old(self)@,
                id,
            ).payment_interval && latest_rate(kv_val(old(self)@, id).floating_rates@, now) is Some
                && kv_val(old(self)@, id).notional <= i128::MAX ==> ({
                let fl = latest_rate(kv_val(old(self)@, id).floating_rates@, now)->0;
                let flow = cashflow_of(kv_val(old(self)@, id), fl);
                &&& r == Ok::<i128, &'static str>(flow as i128)
                &&& final(self)@ == old(self)@.update(
                    kv_idx(old(self)@, id),
                    (id, kv_val(final(self)@, id)),
                )
                &&& kv_val(final(self)@, id).last_payment_time == now
                &&& kv_val(final(self)@, id).cashflows@ == kv_val(old(self)@, id).cashflows@.push(
                    flow as i128,
                )
                &&& kv_val(final(self)@, id).floating_rates@ == kv_val(
                    old(self)@,
                    id,
                ).floating_rates@
                &&& kv_val(final(self)@, id).notional == kv_val(old(self)@, id).notional
            }),
    {
        match self.swaps.index_of(id) {
            Some(i) => {
                if now < self.swaps.val_at(i).last_payment_time + self.swaps.val_at(
                    i,
                ).payment_interval {
                    return Err("too early");
                }
                let placeholder = Swap {
                    fixed_payer: String::new(),
                    floating_payer: String::new(),
                    notional: 0,
                    fixed_rate_bps: 0,
                    payment_interval: 0,
                    last_payment_time: 0,
                    floating_rates: Vec::new(),
                    cashflows: Vec::new(),
                };
                let mut swap = self.swaps.replace_val_at(i, placeholder);
                let ghost snap = *self;
                let ghost rs = swap.floating_rates@;
                let mut found: Option<u32> = None;
                let mut k: usize = swap.floating_rates.len();
                proof {
                    assert(rs.take(k as int) =~= rs);
                }
                while k > 0 && found.is_none()
                    invariant
                        0 <= k <= rs.len(),
                        *self == snap,
                        swap.floating_rates@ == rs,
                        found is None ==> latest_rate(rs, now) == latest_rate(
                            rs.take(k as int),
                            now,
                        ),
                        found is Some ==> latest_rate(rs, now) == found,
                    decreases k,
                {
                    proof {
                        assert(rs.take(k as int).drop_last() =~= rs.take(k as int - 1));
                        assert(rs.take(k as int).last() == rs[k as int - 1]);
                    }
                    let (ts, rate) = swap.floating_rates[k - 1];
                    if ts <= now {
                        found = Some(rate);
                    }
                    k -= 1;
                }
                proof {
                    if found is None {
                        assert(rs.take(0) =~= Seq::<(u64, u32)>::empty());
                    }
                }
                match found {
                    Some(floating) => {
                        let max_u: u128 = i128::MAX as u128;
                        if swap.notional > max_u {
                            self.swaps.set_val_at(i, swap);
                            proof {
                                assert(self@ =~= old(self)@);
                            }
                            return Err("overflow");
                        }
                        let floating_i: i128 = floating as i128;
                        let fixed_i: i128 = swap.fixed_rate_bps as i128;
                        let notional_i: i128 = swap.notional as i128;
                        let delta_rate: i128 = floating_i - fixed_i;
                        proof {
                            assert(u32::MAX * swap.notional <= i128::MAX);
                            assert(i128::MIN <= (floating - swap.fixed_rate_bps) * swap.notional
                                <= i128::MAX) by (nonlinear_arith)
                                requires
                                    0 <= floating <= u32::MAX,
                                    0 <= swap.fixed_rate_bps <= u32::MAX,
                                    0 <= swap.notional,
                                    u32::MAX * swap.notional <= i128::MAX,
                            ;
                            assert(delta_rate * notional_i == (floating - swap.fixed_rate_bps)
                                * swap.notional) by (nonlinear_arith)
                                requires
                                    delta_rate == floating - swap.fixed_rate_bps,
                                    notional_i == swap.notional,
                            ;
                            let x = delta_rate * notional_i;
                            if x >= 0 {
                                vstd::arithmetic::div_mod::lemma_div_is_ordered(
                                    x,
                                    i128::MAX as int,
                                    10_000,
                                );
                                vstd::arithmetic::div_mod::lemma_div_pos_is_pos(x, 10_000);
                                assert(i128::MAX as int / 10_000 <= i128::MAX);
                            } else {
                                vstd::arithmetic::div_mod::lemma_div_is_ordered(
                                    -x,
                                    i128::MAX as int + 1,
                                    10_000,
                                );
                                vstd::arithmetic::div_mod::lemma_div_pos_is_pos(-x, 10_000);
                                assert((i128::MAX as int + 1) / 10_000 <= i128::MAX as int + 1);
                                assert(trunc_div(x, 10_000) >= i128::MIN);
                                assert(trunc_div(x, 10_000) <= 0);
                            }
                        }
                        let cashflow: i128 = delta_rate * notional_i / 10_000;
                        proof {
                            assert(cashflow == cashflow_of(kv_val(old(self)@, id), floating));
                        }
                        swap.last_payment_time = now;
                        swap.cashflows.push(cashflow);
                        self.swaps.set_val_at(i, swap);
                        proof {
                            kv_idx_unique(self@, id, i as int);
                        }
                        Ok(cashflow)
                    },
                    None => {
                        self.swaps.set_val_at(i, swap);
                        proof {
                            assert(self@ =~= old(self)@);
                        }
                        Err("missing rate")
                    },
                }
            },
            None => Err("not found"),
        }
    }
}

} // verus!
