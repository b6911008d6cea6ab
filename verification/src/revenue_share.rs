use vstd::prelude::*;
use crate::arith::{s_add, s_mul, s_sub, sat_add_u128, sat_mul_u128, sat_sub_u128, sat_add_u32,
    sat_sub_u32};
use crate::kv::{kv_has, kv_idx, kv_val, kv_unique};
use crate::smap::StrMap;

verus! {

/// A participant: a weight in basis points and its accrued, unclaimed share.
#[derive(Clone, Copy)]
pub struct Participant {
    pub share_bps: u32,
    pub accrued: u128,
}

/// The abstract state: participant records in insertion order, the sum of
/// weights, and the undistributed remainder retained from past distributions.
#[verifier::ext_equal]
pub ghost struct RsView {
    pub total_bps: u32,
    pub participants: Seq<(Seq<char>, Participant)>,
    pub undistributed: u128,
}

/// Sum of all recorded weights.
pub open spec fn sum_bps(s: Seq<(Seq<char>, Participant)>) -> int
    decreases s.len(),
{
    if s.len() == 0 {
        0
    } else {
        sum_bps(s.drop_last()) + s.last().1.share_bps
    }
}

/// The splitter's invariant: distinct participants, and the stored weight
/// total equals the sum of weights.
pub open spec fn inv(v: RsView) -> bool {
    &&& kv_unique(v.participants)
    &&& v.total_bps == sum_bps(v.participants)
}

/// The weight held by `a`, zero for an unknown participant.
pub open spec fn bps_of(v: RsView, a: Seq<char>) -> int {
    if kv_has(v.participants, a) {
        kv_val(v.participants, a).share_bps as int
    } else {
        0
    }
}

/// The portion a weight of `bps` earns from `amount` under `total` weight.
pub open spec fn portion_of(amount: u128, bps: u32, total: u32) -> int {
    s_mul(amount as int, bps as int) / total as int
}

/// The total paid out by one distribution of `amount` across the
/// participants.
pub open spec fn total_paid(s: Seq<(Seq<char>, Participant)>, amount: u128, total: u32) -> int
    decreases s.len(),
{
    if s.len() == 0 {
        0
    } else {
        s_add(
            total_paid(s.drop_last(), amount, total),
            portion_of(amount, s.last().1.share_bps, total),
        )
    }
}

/// Registering a participant keeps its accrued, unclaimed share; weight zero
/// removes the record only once nothing is left to claim, otherwise a drained
/// record with weight zero survives. The weight total moves by the difference.
pub open spec fn spec_set_participant(v: RsView, a: Seq<char>, bps: u32) -> RsView {
    let old_bps: int = bps_of(v, a);
    let t1: int = if v.total_bps >= old_bps {
        v.total_bps - old_bps
    } else {
        0
    };
    let kept: u128 = if kv_has(v.participants, a) {
        kv_val(v.participants, a).accrued
    } else {
        0
    };
    if bps == 0 {
        RsView {
            participants: if kv_has(v.participants, a) {
                if kv_val(v.participants, a).accrued > 0 {
                    v.participants.update(
                        kv_idx(v.participants, a),
                        (a, Participant { share_bps: 0, accrued: kept }),
                    )
                } else {
                    v.participants.remove(kv_idx(v.participants, a))
                }
            } else {
                v.participants
            },
            total_bps: t1 as u32,
            ..v
        }
    } else {
        RsView {
            participants: if kv_has(v.participants, a) {
                v.participants.update(
                    kv_idx(v.participants, a),
                    (a, Participant { share_bps: bps, accrued: kept }),
                )
            } else {
                v.participants.push((a, Participant { share_bps: bps, accrued: 0 }))
            },
            total_bps: if t1 + bps <= u32::MAX {
                (t1 + bps) as u32
            } else {
                u32::MAX
            },
            ..v
        }
    }
}

/// The state a claim leaves: the participant's accrued share drained; the
/// record survives.
pub open spec fn spec_claim_state(v: RsView, a: Seq<char>) -> RsView {
    let i = kv_idx(v.participants, a);
    RsView {
        participants: v.participants.update(
            i,
            (v.participants[i].0, Participant { share_bps: v.participants[i].1.share_bps, accrued: 0 }),
        ),
        ..v
    }
}

proof fn lemma_sum_bps_update(s: Seq<(Seq<char>, Participant)>, i: int, p: (Seq<char>, Participant))
    requires
        0 <= i < s.len(),
    ensures
        sum_bps(s.update(i, p)) == sum_bps(s) - s[i].1.share_bps + p.1.share_bps,
    decreases s.len(),
{
    let t = s.update(i, p);
    if i == s.len() - 1 {
        assert(t.drop_last() =~= s.drop_last());
        assert(t.last() == p);
    } else {
        assert(t.drop_last() =~= s.drop_last().update(i, p));
        lemma_sum_bps_update(s.drop_last(), i, p);
        assert(t.last() == s.last());
    }
}

proof fn lemma_sum_bps_push(s: Seq<(Seq<char>, Participant)>, p: (Seq<char>, Participant))
    ensures
        sum_bps(s.push(p)) == sum_bps(s) + p.1.share_bps,
{
    assert(s.push(p).drop_last() =~= s);
    assert(s.push(p).last() == p);
}

proof fn lemma_sum_bps_remove(s: Seq<(Seq<char>, Participant)>, i: int)
    requires
        0 <= i < s.len(),
    ensures
        sum_bps(s.remove(i)) == sum_bps(s) - s[i].1.share_bps,
    decreases s.len(),
{
    let t = s.remove(i);
    if i == s.len() - 1 {
        assert(t =~= s.drop_last());
    } else {
        assert(t.drop_last() =~= s.drop_last().remove(i));
        lemma_sum_bps_remove(s.drop_last(), i);
        assert(t.last() == s.last());
    }
}

proof fn lemma_sum_bps_element(s: Seq<(Seq<char>, Participant)>, i: int)
    requires
        0 <= i < s.len(),
    ensures
        s[i].1.share_bps <= sum_bps(s),
    decreases s.len(),
{
    lemma_sum_bps_nonneg(s);
    if i == s.len() - 1 {
        lemma_sum_bps_nonneg(s.drop_last());
    } else {
        lemma_sum_bps_element(s.drop_last(), i);
        assert(s.drop_last()[i] == s[i]);
    }
}

proof fn lemma_sum_bps_nonneg(s: Seq<(Seq<char>, Participant)>)
    ensures
        sum_bps(s) >= 0,
    decreases s.len(),
{
    if s.len() > 0 {
        lemma_sum_bps_nonneg(s.drop_last());
    }
}

/// Two participant sequences with the same weights at every position have the
/// same weight sum.
proof fn lemma_sum_bps_pointwise(a: Seq<(Seq<char>, Participant)>, b: Seq<(Seq<char>, Participant)>)
    requires
        a.len() == b.len(),
        forall|i: int| 0 <= i < a.len() ==> (#[trigger] a[i]).1.share_bps == b[i].1.share_bps,
    ensures
        sum_bps(a) == sum_bps(b),
    decreases a.len(),
{
    if a.len() > 0 {
        lemma_sum_bps_pointwise(a.drop_last(), b.drop_last());
    }
}


/// Every payout bounded: the payouts one distribution makes sum to at most
/// the weight-proportional portion of the amount.
proof fn lemma_total_paid_bound(s: Seq<(Seq<char>, Participant)>, amount: u128, total: u32)
    requires
        total > 0,
        sum_bps(s) <= total,
        amount * total <= u128::MAX,
    ensures
        0 <= total_paid(s, amount, total) <= amount * sum_bps(s) / total as int,
        total_paid(s, amount, total) <= amount,
    decreases s.len(),
{
    let t = total as int;
    let a = amount as int;
    lemma_sum_bps_nonneg(s);
    if s.len() == 0 {
        assert(a * 0 == 0) by (nonlinear_arith);
        vstd::arithmetic::div_mod::lemma_div_of0(t);
    } else {
        let rest = s.drop_last();
        let w = s.last().1.share_bps as int;
        lemma_sum_bps_nonneg(rest);
        lemma_total_paid_bound(rest, amount, total);
        lemma_sum_bps_element(s, s.len() - 1);
        assert(a * w <= a * t && a * w >= 0 && a * sum_bps(rest) >= 0 && a * sum_bps(rest)
            + a * w == a * sum_bps(s) && a * sum_bps(s) <= a * t) by (nonlinear_arith)
            requires
                0 <= w <= t,
                0 <= sum_bps(rest),
                sum_bps(s) == sum_bps(rest) + w,
                sum_bps(s) <= t,
                a >= 0,
        ;
        assert(s_mul(a, w) == a * w);
        let qa = a * sum_bps(rest) / t;
        let qb = a * w / t;
        vstd::arithmetic::div_mod::lemma_fundamental_div_mod(a * sum_bps(rest), t);
        vstd::arithmetic::div_mod::lemma_mod_division_less_than_divisor(a * sum_bps(rest), t);
        vstd::arithmetic::div_mod::lemma_fundamental_div_mod(a * w, t);
        vstd::arithmetic::div_mod::lemma_mod_division_less_than_divisor(a * w, t);
        vstd::arithmetic::div_mod::lemma_div_pos_is_pos(a * w, t);
        vstd::arithmetic::div_mod::lemma_div_pos_is_pos(a * sum_bps(rest), t);
        assert(t * (qa + qb) <= a * sum_bps(rest) + a * w) by (nonlinear_arith)
            requires
                a * sum_bps(rest) == t * qa + (a * sum_bps(rest)) % t,
                a * w == t * qb + (a * w) % t,
                (a * sum_bps(rest)) % t >= 0,
                (a * w) % t >= 0,
        ;
        vstd::arithmetic::div_mod::lemma_div_multiples_vanish(qa + qb, t);
        vstd::arithmetic::div_mod::lemma_div_is_ordered(t * (qa + qb), a * sum_bps(s), t);
        vstd::arithmetic::div_mod::lemma_div_is_ordered(a * sum_bps(s), a * t, t);
        vstd::arithmetic::div_mod::lemma_div_multiples_vanish(a, t);
        assert(a * t == t * a) by (nonlinear_arith);
        assert(a * sum_bps(s) / t <= a);
    }
}

/// Law (conservation at a distribution): the payouts one distribution makes
/// sum to at most the amount, so the amount splits exactly into the payouts
/// and the retained remainder — value is neither created nor destroyed.
pub proof fn lemma_distribution_conserves(s: Seq<(Seq<char>, Participant)>, amount: u128, total: u32)
    requires
        total > 0,
        sum_bps(s) <= total,
        amount * total <= u128::MAX,
    ensures
        0 <= total_paid(s, amount, total) <= amount,
        total_paid(s, amount, total) + s_sub(amount as int, total_paid(s, amount, total))
            == amount,
{
    lemma_total_paid_bound(s, amount, total);
}

/// A flat revenue splitter: participants weighted in basis points accrue a
/// pro-rata share of each distributed amount, eagerly; the rounding remainder
/// of every distribution is retained as undistributed, never dropped.
pub struct RevenueShare {
    pub total_bps: u32,
    participants: StrMap<Participant>,
    pub undistributed: u128,
}

impl RevenueShare {
    pub closed spec fn view(&self) -> RsView {
        RsView {
            total_bps: self.total_bps,
            participants: self.participants@,
            undistributed: self.undistributed,
        }
    }

    pub closed spec fn wf(&self) -> bool {
        self.participants.wf() && inv(self@)
    }

    /// The well-formedness a constructor establishes gives the public
    /// invariant of the view, so the laws apply to every reachable state.
    pub proof fn lemma_wf_implies_inv(&self)
        requires
            self.wf(),
        ensures
            inv(self@),
            kv_unique(self@.participants),
    {
    }

    pub fn new() -> (r: Self)
        ensures
            r.wf(),
            r@.participants == Seq::<(Seq<char>, Participant)>::empty(),
            r@.total_bps == 0,
            r@.undistributed == 0,
    {
        RevenueShare { total_bps: 0, participants: StrMap::new(), undistributed: 0 }
    }

    /// Registers, re-weights or (with weight zero) retires a participant. A
    /// re-registered participant keeps its accrued, unclaimed share; a
    /// retired one is removed only once nothing is left to claim, and
    /// otherwise survives drained of weight.
    pub fn set_participant(&mut self, account: String, share_bps: u32)
        requires
            old(self).wf(),
            old(self)@.total_bps - bps_of(old(self)@, account@) + share_bps <= u32::MAX,
        ensures
            final(self).wf(),
            final(self)@ == spec_set_participant(old(self)@, account@, share_bps),
            final(self)@.undistributed == old(self)@.undistributed,
    {
        let ghost pre = self@;
        let (old_bps, kept): (u32, u128) = match self.participants.get(account.as_str()) {
            Some(p) => (p.share_bps, p.accrued),
            None => (0, 0),
        };
        self.total_bps = sat_sub_u32(self.total_bps, old_bps);
        if share_bps == 0 {
            match self.participants.index_of(account.as_str()) {
                Some(i) => {
                    proof {
                        lemma_sum_bps_element(pre.participants, i as int);
                    }
                    if kept > 0 {
                        self.participants.set_val_at(
                            i,
                            Participant { share_bps: 0, accrued: kept },
                        );
                        proof {
                            lemma_sum_bps_update(
                                pre.participants,
                                i as int,
                                (account@, Participant { share_bps: 0, accrued: kept }),
                            );
                            assert(self@ =~= spec_set_participant(pre, account@, share_bps));
                        }
                    } else {
                        self.participants.remove(account.as_str());
                        proof {
                            lemma_sum_bps_remove(pre.participants, i as int);
                            assert(self@ =~= spec_set_participant(pre, account@, share_bps));
                        }
                    }
                },
                None => {
                    proof {
                        assert(self@ =~= spec_set_participant(pre, account@, share_bps));
                    }
                },
            }
        } else {
            proof {
                if kv_has(pre.participants, account@) {
                    lemma_sum_bps_element(pre.participants, kv_idx(pre.participants, account@));
                }
            }
            self.participants.insert(account, Participant { share_bps, accrued: kept });
            self.total_bps = sat_add_u32(self.total_bps, share_bps);
            proof {
                if kv_has(pre.participants, account@) {
                    lemma_sum_bps_update(
                        pre.participants,
                        kv_idx(pre.participants, account@),
                        (account@, Participant { share_bps, accrued: kept }),
                    );
                } else {
                    lemma_sum_bps_push(
                        pre.participants,
                        (account@, Participant { share_bps, accrued: 0 }),
                    );
                }
                assert(self@ =~= spec_set_participant(pre, account@, share_bps));
            }
        }
    }

    /// Credits every participant with its weighted portion of `amount`, each
    /// rounded down; the remainder the floors leave over — all of it, when no
    /// weight exists — is retained as undistributed.
    pub fn distribute(&mut self, amount: u128)
        requires
            old(self).wf(),
        ensures
            final(self).wf(),
            final(self)@.total_bps == old(self)@.total_bps,
            final(self)@.participants.len() == old(self)@.participants.len(),
            amount == 0 ==> *final(self) == *old(self),
            amount > 0 && old(self)@.total_bps == 0 ==> final(self)@.participants == old(
                self,
            )@.participants && final(self)@.undistributed == s_add(
                old(self)@.undistributed as int,
                amount as int,
            ),
            amount > 0 && old(self)@.total_bps > 0 ==> final(self)@.undistributed == s_add(
                old(self)@.undistributed as int,
                s_sub(
                    amount as int,
                    total_paid(old(self)@.participants, amount, old(self)@.total_bps),
                ),
            ) && forall|i: int| 0 <= i < old(self)@.participants.len() ==> {
                let p = (#[trigger] old(self)@.participants[i]).1;
                final(self)@.participants[i] == (
                    old(self)@.participants[i].0,
                    Participant {
                        share_bps: p.share_bps,
                        accrued: s_add(
                            p.accrued as int,
                            portion_of(amount, p.share_bps, old(self)@.total_bps),
                        ) as u128,
                    },
                )
            },
    {
        let ghost pre = self@;
        if amount == 0 {
            return ;
        }
        if self.total_bps == 0 {
            self.undistributed = sat_add_u128(self.undistributed, amount);
            return ;
        }
        let total: u128 = self.total_bps as u128;
        let n: usize = self.participants.len();
        let mut paid: u128 = 0;
        let mut i: usize = 0;
        proof {
            assert(pre.participants.take(0) =~= Seq::<(Seq<char>, Participant)>::empty());
        }
        while i < n
            invariant
                self.participants.wf(),
                kv_unique(self.participants@),
                n == self.participants@.len(),
                n == pre.participants.len(),
                0 <= i <= n,
                total == pre.total_bps as u128,
                total > 0,
                amount > 0,
                self.total_bps == pre.total_bps,
                self.undistributed == pre.undistributed,
                paid == total_paid(pre.participants.take(i as int), amount, pre.total_bps),
                forall|j: int| i <= j < n ==> self.participants@[j] == pre.participants[j],
                forall|j: int| 0 <= j < i ==> {
                    let p = (#[trigger] pre.participants[j]).1;
                    self.participants@[j] == (
                        pre.participants[j].0,
                        Participant {
                            share_bps: p.share_bps,
                            accrued: s_add(
                                p.accrued as int,
                                portion_of(amount, p.share_bps, pre.total_bps),
                            ) as u128,
                        },
                    )
                },
            decreases n - i,
        {
            proof {
                assert(pre.participants.take(i as int + 1).drop_last() =~= pre.participants.take(
                    i as int,
                ));
                assert(pre.participants.take(i as int + 1).last() == pre.participants[i as int]);
            }
            let p = *self.participants.val_at(i);
            let share = sat_mul_u128(amount, p.share_bps as u128) / total;
            paid = sat_add_u128(paid, share);
            self.participants.set_val_at(
                i,
                Participant { share_bps: p.share_bps, accrued: sat_add_u128(p.accrued, share) },
            );
            i += 1;
        }
        proof {
            assert(pre.participants.take(n as int) =~= pre.participants);
            assert(sum_bps(self.participants@) == sum_bps(pre.participants)) by {
                lemma_sum_bps_pointwise(self.participants@, pre.participants);
            }
        }
        let dust = sat_sub_u128(amount, paid);
        self.undistributed = sat_add_u128(self.undistributed, dust);
    }

    /// Drains and returns a participant's accrued share; the record survives.
    /// Unknown participants fail.
    pub fn claim(&mut self, account: &str) -> (r: Result<u128, &'static str>)
        requires
            old(self).wf(),
        ensures
            final(self).wf(),
            !kv_has(old(self)@.participants, account@) ==> r == Err::<u128, &'static str>(
                "unknown",
            ) && *final(self) == *old(self),
            kv_has(old(self)@.participants, account@) ==> r == Ok::<u128, &'static str>(
                kv_val(old(self)@.participants, account@).accrued,
            ) && final(self)@ == spec_claim_state(old(self)@, account@),
            final(self)@.total_bps == old(self)@.total_bps,
            final(self)@.undistributed == old(self)@.undistributed,
    {
        let ghost pre = self@;
        match self.participants.index_of(account) {
            Some(i) => {
                let p = *self.participants.val_at(i);
                self.participants.set_val_at(i, Participant { share_bps: p.share_bps, accrued: 0 });
                proof {
                    lemma_sum_bps_update(
                        pre.participants,
                        i as int,
                        (account@, Participant { share_bps: p.share_bps, accrued: 0 }),
                    );
                    assert(self@ =~= spec_claim_state(pre, account@));
                }
                Ok(p.accrued)
            },
            None => Err("unknown"),
        }
    }
}

} // verus!
