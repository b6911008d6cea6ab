use vstd::prelude::*;
use crate::arith::{s_add, s_mul, s_sub, sat_add_u128, sat_mul_u128, sat_sub_u128, sat_add_u32,
    sat_sub_u32};
use crate::kv::{kv_has, kv_idx, kv_val, kv_unique};
use crate::smap::StrMap;

verus! {

/// A payee: a weight and its accrued, unclaimed payout.
#[derive(Clone, Copy)]
pub struct Payee {
    pub share: u32,
    pub accrued: u128,
}

/// The abstract state: payee records in insertion order, the sum of weights,
/// and the undistributed remainder retained from past distributions.
#[verifier::ext_equal]
pub ghost struct RoyView {
    pub payees: Seq<(Seq<char>, Payee)>,
    pub total_share: u32,
    pub undistributed: u128,
}

/// Sum of all recorded weights.
pub open spec fn sum_weights(s: Seq<(Seq<char>, Payee)>) -> int
    decreases s.len(),
{
    if s.len() == 0 {
        0
    } else {
        sum_weights(s.drop_last()) + s.last().1.share
    }
}

/// The splitter's invariant: distinct payees, and the stored weight total
/// equals the sum of weights.
pub open spec fn inv(v: RoyView) -> bool {
    &&& kv_unique(v.payees)
    &&& v.total_share == sum_weights(v.payees)
}

/// The weight held by `a`, zero for an unknown payee.
pub open spec fn weight_of(v: RoyView, a: Seq<char>) -> int {
    if kv_has(v.payees, a) {
        kv_val(v.payees, a).share as int
    } else {
        0
    }
}

/// The payout a weight of `share` earns from `amount` under `total` weight.
pub open spec fn payout_of(amount: u128, share: u32, total: u32) -> int {
    s_mul(amount as int, share as int) / total as int
}

/// The total paid out by one distribution of `amount` across the payees.
pub open spec fn total_paid(s: Seq<(Seq<char>, Payee)>, amount: u128, total: u32) -> int
    decreases s.len(),
{
    if s.len() == 0 {
        0
    } else {
        s_add(total_paid(s.drop_last(), amount, total), payout_of(amount, s.last().1.share, total))
    }
}

/// Registering a payee keeps its accrued, unclaimed payout; weight zero
/// removes the record only once nothing is left to claim, otherwise a drained
/// record with weight zero survives. The weight total moves by the difference.
pub open spec fn spec_set_payee(v: RoyView, a: Seq<char>, share: u32) -> RoyView {
    let old_share: int = weight_of(v, a);
    let t1: int = if v.total_share >= old_share {
        v.total_share - old_share
    } else {
        0
    };
    let kept: u128 = if kv_has(v.payees, a) {
        kv_val(v.payees, a).accrued
    } else {
        0
    };
    if share == 0 {
        RoyView {
            payees: if kv_has(v.payees, a) {
                if kv_val(v.payees, a).accrued > 0 {
                    v.payees.update(kv_idx(v.payees, a), (a, Payee { share: 0, accrued: kept }))
                } else {
                    v.payees.remove(kv_idx(v.payees, a))
                }
            } else {
                v.payees
            },
            total_share: t1 as u32,
            ..v
        }
    } else {
        RoyView {
            payees: if kv_has(v.payees, a) {
                v.payees.update(kv_idx(v.payees, a), (a, Payee { share, accrued: kept }))
            } else {
                v.payees.push((a, Payee { share, accrued: 0 }))
            },
            total_share: if t1 + share <= u32::MAX {
                (t1 + share) as u32
            } else {
                u32::MAX
            },
            ..v
        }
    }
}

/// The state a claim leaves: the payee's accrued payout drained; the record
/// survives.
pub open spec fn spec_claim_state(v: RoyView, a: Seq<char>) -> RoyView {
    let i = kv_idx(v.payees, a);
    RoyView {
        payees: v.payees.update(i, (v.payees[i].0, Payee { share: v.payees[i].1.share, accrued: 0 })),
        ..v
    }
}

proof fn lemma_sum_weights_update(s: Seq<(Seq<char>, Payee)>, i: int, p: (Seq<char>, Payee))
    requires
        0 <= i < s.len(),
    ensures
        sum_weights(s.update(i, p)) == sum_weights(s) - s[i].1.share + p.1.share,
    decreases s.len(),
{
    let t = s.update(i, p);
    if i == s.len() - 1 {
        assert(t.drop_last() =~= s.drop_last());
        assert(t.last() == p);
    } else {
        assert(t.drop_last() =~= s.drop_last().update(i, p));
        lemma_sum_weights_update(s.drop_last(), i, p);
        assert(t.last() == s.last());
    }
}

proof fn lemma_sum_weights_push(s: Seq<(Seq<char>, Payee)>, p: (Seq<char>, Payee))
    ensures
        sum_weights(s.push(p)) == sum_weights(s) + p.1.share,
{
    assert(s.push(p).drop_last() =~= s);
    assert(s.push(p).last() == p);
}

proof fn lemma_sum_weights_remove(s: Seq<(Seq<char>, Payee)>, i: int)
    requires
        0 <= i < s.len(),
    ensures
        sum_weights(s.remove(i)) == sum_weights(s) - s[i].1.share,
    decreases s.len(),
{
    let t = s.remove(i);
    if i == s.len() - 1 {
        assert(t =~= s.drop_last());
    } else {
        assert(t.drop_last() =~= s.drop_last().remove(i));
        lemma_sum_weights_remove(s.drop_last(), i);
        assert(t.last() == s.last());
    }
}

proof fn lemma_sum_weights_element(s: Seq<(Seq<char>, Payee)>, i: int)
    requires
        0 <= i < s.len(),
    ensures
        s[i].1.share <= sum_weights(s),
    decreases s.len(),
{
    lemma_sum_weights_nonneg(s);
    if i == s.len() - 1 {
        lemma_sum_weights_nonneg(s.drop_last());
    } else {
        lemma_sum_weights_element(s.drop_last(), i);
        assert(s.drop_last()[i] == s[i]);
    }
}

proof fn lemma_sum_weights_nonneg(s: Seq<(Seq<char>, Payee)>)
    ensures
        sum_weights(s) >= 0,
    decreases s.len(),
{
    if s.len() > 0 {
        lemma_sum_weights_nonneg(s.drop_last());
    }
}


/// Every payout bounded: the payouts one distribution makes sum to at most
/// the weight-proportional portion of the amount.
proof fn lemma_total_paid_bound(s: Seq<(Seq<char>, Payee)>, amount: u128, total: u32)
    requires
        total > 0,
        sum_weights(s) <= total,
        amount * total <= u128::MAX,
    ensures
        0 <= total_paid(s, amount, total) <= amount * sum_weights(s) / total as int,
        total_paid(s, amount, total) <= amount,
    decreases s.len(),
{
    let t = total as int;
    let a = amount as int;
    lemma_sum_weights_nonneg(s);
    if s.len() == 0 {
        assert(a * 0 == 0) by (nonlinear_arith);
        vstd::arithmetic::div_mod::lemma_div_of0(t);
    } else {
        let rest = s.drop_last();
        let w = s.last().1.share as int;
        lemma_sum_weights_nonneg(rest);
        lemma_total_paid_bound(rest, amount, total);
        lemma_sum_weights_element(s, s.len() - 1);
        assert(a * w <= a * t && a * w >= 0 && a * sum_weights(rest) >= 0 && a * sum_weights(rest)
            + a * w == a * sum_weights(s) && a * sum_weights(s) <= a * t) by (nonlinear_arith)
            requires
                0 <= w <= t,
                0 <= sum_weights(rest),
                sum_weights(s) == sum_weights(rest) + w,
                sum_weights(s) <= t,
                a >= 0,
        ;
        assert(s_mul(a, w) == a * w);
        let qa = a * sum_weights(rest) / t;
        let qb = a * w / t;
        vstd::arithmetic::div_mod::lemma_fundamental_div_mod(a * sum_weights(rest), t);
        vstd::arithmetic::div_mod::lemma_mod_division_less_than_divisor(a * sum_weights(rest), t);
        vstd::arithmetic::div_mod::lemma_fundamental_div_mod(a * w, t);
        vstd::arithmetic::div_mod::lemma_mod_division_less_than_divisor(a * w, t);
        vstd::arithmetic::div_mod::lemma_div_pos_is_pos(a * w, t);
        vstd::arithmetic::div_mod::lemma_div_pos_is_pos(a * sum_weights(rest), t);
        assert(t * (qa + qb) <= a * sum_weights(rest) + a * w) by (nonlinear_arith)
            requires
                a * sum_weights(rest) == t * qa + (a * sum_weights(rest)) % t,
                a * w == t * qb + (a * w) % t,
                (a * sum_weights(rest)) % t >= 0,
                (a * w) % t >= 0,
        ;
        vstd::arithmetic::div_mod::lemma_div_multiples_vanish(qa + qb, t);
        vstd::arithmetic::div_mod::lemma_div_is_ordered(t * (qa + qb), a * sum_weights(s), t);
        vstd::arithmetic::div_mod::lemma_div_is_ordered(a * sum_weights(s), a * t, t);
        vstd::arithmetic::div_mod::lemma_div_multiples_vanish(a, t);
        assert(a * t == t * a) by (nonlinear_arith);
        assert(a * sum_weights(s) / t <= a);
    }
}

/// Law (conservation at a distribution): the payouts one distribution makes
/// sum to at most the amount, so the amount splits exactly into the payouts
/// and the retained remainder — value is neither created nor destroyed.
pub proof fn lemma_distribution_conserves(s: Seq<(Seq<char>, Payee)>, amount: u128, total: u32)
    requires
        total > 0,
        sum_weights(s) <= total,
        amount * total <= u128::MAX,
    ensures
        0 <= total_paid(s, amount, total) <= amount,
        total_paid(s, amount, total) + s_sub(amount as int, total_paid(s, amount, total))
            == amount,
{
    lemma_total_paid_bound(s, amount, total);
}

/// A royalty splitter: weighted payees accrue a pro-rata share of each
/// distributed amount, eagerly; the rounding remainder of every distribution
/// is retained as undistributed, never dropped.
pub struct RoyaltySplitter {
    payees: StrMap<Payee>,
    pub total_share: u32,
    pub undistributed: u128,
}

impl RoyaltySplitter {
    pub closed spec fn view(&self) -> RoyView {
        RoyView {
            payees: self.payees@,
            total_share: self.total_share,
            undistributed: self.undistributed,
        }
    }

    pub closed spec fn wf(&self) -> bool {
        self.payees.wf() && inv(self@)
    }

    /// The well-formedness a constructor establishes gives the public
    /// invariant of the view, so the laws apply to every reachable state.
    pub proof fn lemma_wf_implies_inv(&self)
        requires
            self.wf(),
        ensures
            inv(self@),
            kv_unique(self@.payees),
    {
    }

    pub fn new() -> (r: Self)
        ensures
            r.wf(),
            r@.payees == Seq::<(Seq<char>, Payee)>::empty(),
            r@.total_share == 0,
            r@.undistributed == 0,
    {
        RoyaltySplitter { payees: StrMap::new(), total_share: 0, undistributed: 0 }
    }

    /// Registers, re-weights or (with weight zero) retires a payee. A
    /// re-registered payee keeps its accrued, unclaimed payout; a retired one
    /// is removed only once nothing is left to claim, and otherwise survives
    /// drained of weight.
    pub fn set_payee(&mut self, account: String, share: u32)
        requires
            old(self).wf(),
            old(self)@.total_share - weight_of(old(self)@, account@) + share <= u32::MAX,
        ensures
            final(self).wf(),
            final(self)@ == spec_set_payee(old(self)@, account@, share),
            final(self)@.undistributed == old(self)@.undistributed,
    {
        let ghost pre = self@;
        let (old_share, kept): (u32, u128) = match self.payees.get(account.as_str()) {
            Some(p) => (p.share, p.accrued),
            None => (0, 0),
        };
        self.total_share = sat_sub_u32(self.total_share, old_share);
        if share == 0 {
            match self.payees.index_of(account.as_str()) {
                Some(i) => {
                    proof {
                        lemma_sum_weights_element(pre.payees, i as int);
                    }
                    if kept > 0 {
                        self.payees.set_val_at(i, Payee { share: 0, accrued: kept });
                        proof {
                            lemma_sum_weights_update(
                                pre.payees,
                                i as int,
                                (account@, Payee { share: 0, accrued: kept }),
                            );
                            assert(self@ =~= spec_set_payee(pre, account@, share));
                        }
                    } else {
                        self.payees.remove(account.as_str());
                        proof {
                            lemma_sum_weights_remove(pre.payees, i as int);
                            assert(self@ =~= spec_set_payee(pre, account@, share));
                        }
                    }
                },
                None => {
                    proof {
                        assert(self@ =~= spec_set_payee(pre, account@, share));
                    }
                },
            }
        } else {
            proof {
                if kv_has(pre.payees, account@) {
                    lemma_sum_weights_element(pre.payees, kv_idx(pre.payees, account@));
                }
            }
            self.payees.insert(account, Payee { share, accrued: kept });
            self.total_share = sat_add_u32(self.total_share, share);
            proof {
                if kv_has(pre.payees, account@) {
                    lemma_sum_weights_update(
                        pre.payees,
                        kv_idx(pre.payees, account@),
                        (account@, Payee { share, accrued: kept }),
                    );
                } else {
                    lemma_sum_weights_push(pre.payees, (account@, Payee { share, accrued: 0 }));
                }
                assert(self@ =~= spec_set_payee(pre, account@, share));
            }
        }
    }

    /// Credits every payee with its weighted portion of `amount`, each
    /// rounded down; the remainder the floors leave over — all of it, when no
    /// weight exists — is retained as undistributed.
    pub fn distribute(&mut self, amount: u128)
        requires
            old(self).wf(),
        ensures
            final(self).wf(),
            final(self)@.total_share == old(self)@.total_share,
            final(self)@.payees.len() == old(self)@.payees.len(),
            amount == 0 ==> *final(self) == *old(self),
            amount > 0 && old(self)@.total_share == 0 ==> final(self)@.payees == old(
                self,
            )@.payees && final(self)@.undistributed == s_add(
                old(self)@.undistributed as int,
                amount as int,
            ),
            amount > 0 && old(self)@.total_share > 0 ==> final(self)@.undistributed == s_add(
                old(self)@.undistributed as int,
                s_sub(
                    amount as int,
                    total_paid(old(self)@.payees, amount, old(self)@.total_share),
                ),
            ) && forall|i: int| 0 <= i < old(self)@.payees.len() ==> {
                let p = (#[trigger] old(self)@.payees[i]).1;
                final(self)@.payees[i] == (
                    old(self)@.payees[i].0,
                    Payee {
                        share: p.share,
                        accrued: s_add(
                            p.accrued as int,
                            payout_of(amount, p.share, old(self)@.total_share),
                        ) as u128,
                    },
                )
            },
    {
        let ghost pre = self@;
        if amount == 0 {
            return ;
        }
        if self.total_share == 0 {
            self.undistributed = sat_add_u128(self.undistributed, amount);
            return ;
        }
        let total: u128 = self.total_share as u128;
        let n: usize = self.payees.len();
        let mut paid: u128 = 0;
        let mut i: usize = 0;
        proof {
            assert(pre.payees.take(0) =~= Seq::<(Seq<char>, Payee)>::empty());
        }
        while i < n
            invariant
                self.payees.wf(),
                kv_unique(self.payees@),
                n == self.payees@.len(),
                n == pre.payees.len(),
                0 <= i <= n,
                total == pre.total_share as u128,
                total > 0,
                amount > 0,
                self.total_share == pre.total_share,
                self.undistributed == pre.undistributed,
                paid == total_paid(pre.payees.take(i as int), amount, pre.total_share),
                forall|j: int| i <= j < n ==> self.payees@[j] == pre.payees[j],
                forall|j: int| 0 <= j < i ==> {
                    let p = (#[trigger] pre.payees[j]).1;
                    self.payees@[j] == (
                        pre.payees[j].0,
                        Payee {
                            share: p.share,
                            accrued: s_add(
                                p.accrued as int,
                                payout_of(amount, p.share, pre.total_share),
                            ) as u128,
                        },
                    )
                },
            decreases n - i,
        {
            proof {
                assert(pre.payees.take(i as int + 1).drop_last() =~= pre.payees.take(i as int));
                assert(pre.payees.take(i as int + 1).last() == pre.payees[i as int]);
            }
            let p = *self.payees.val_at(i);
            let payout = sat_mul_u128(amount, p.share as u128) / total;
            paid = sat_add_u128(paid, payout);
            self.payees.set_val_at(
                i,
                Payee { share: p.share, accrued: sat_add_u128(p.accrued, payout) },
            );
            i += 1;
        }
        proof {
            assert(pre.payees.take(n as int) =~= pre.payees);
            assert(sum_weights(self.payees@) == sum_weights(pre.payees)) by {
                lemma_sum_weights_pointwise(self.payees@, pre.payees);
            }
        }
        let dust = sat_sub_u128(amount, paid);
        self.undistributed = sat_add_u128(self.undistributed, dust);
    }

    /// Drains and returns a payee's accrued payout; the record survives.
    /// Unknown payees fail.
    pub fn claim(&mut self, account: &str) -> (r: Result<u128, &'static str>)
        requires
            old(self).wf(),
        ensures
            final(self).wf(),
            !kv_has(old(self)@.payees, account@) ==> r == Err::<u128, &'static str>("unknown")
                && *final(self) == *old(self),
            kv_has(old(self)@.payees, account@) ==> r == Ok::<u128, &'static str>(
                kv_val(old(self)@.payees, account@).accrued,
            ) && final(self)@ == spec_claim_state(old(self)@, account@),
            final(self)@.total_share == old(self)@.total_share,
            final(self)@.undistributed == old(self)@.undistributed,
    {
        let ghost pre = self@;
        match self.payees.index_of(account) {
            Some(i) => {
                let p = *self.payees.val_at(i);
                self.payees.set_val_at(i, Payee { share: p.share, accrued: 0 });
                proof {
                    lemma_sum_weights_update(
                        pre.payees,
                        i as int,
                        (account@, Payee { share: p.share, accrued: 0 }),
                    );
                    assert(self@ =~= spec_claim_state(pre, account@));
                }
                Ok(p.accrued)
            },
            None => Err("unknown"),
        }
    }
}

/// Two payee sequences with the same weights at every position have the same
/// weight sum.
proof fn lemma_sum_weights_pointwise(a: Seq<(Seq<char>, Payee)>, b: Seq<(Seq<char>, Payee)>)
    requires
        a.len() == b.len(),
        forall|i: int| 0 <= i < a.len() ==> (#[trigger] a[i]).1.share == b[i].1.share,
    ensures
        sum_weights(a) == sum_weights(b),
    decreases a.len(),
{
    if a.len() > 0 {
        lemma_sum_weights_pointwise(a.drop_last(), b.drop_last());
    }
}

} // verus!
