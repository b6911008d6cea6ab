use vstd::prelude::*;
use crate::arith::{s_add, s_sub, s_mul, sat_add_u128, sat_sub_u128, sat_mul_u128};
use crate::kv::{kv_has, kv_idx, kv_val, kv_unique, kv_idx_unique};
use crate::smap::StrMap;

verus! {

/// Fixed-point scale for per-share accounting: fractional value per share is
/// stored as an integer multiple of 1/PRECISION.
pub const PRECISION: u128 = 1_000_000_000_000;

/// Per-account record: stake, reconciled-but-unclaimed value, and the
/// accumulator snapshot at the last reconciliation.
#[derive(Clone, Copy)]
pub struct Shareholder {
    pub shares: u128,
    pub accrued: u128,
    pub checkpoint: u128,
}

/// The abstract state of the distributor: the shareholder records in
/// insertion order, the total stake, the cumulative per-share accumulator
/// (scaled by `PRECISION`) and the undistributed remainder.
#[verifier::ext_equal]
pub ghost struct DivView {
    pub holders: Seq<(Seq<char>, Shareholder)>,
    pub total_shares: u128,
    pub cps: u128,
    pub undist: u128,
}

/// Sum of all recorded stakes.
pub open spec fn sum_shares(hs: Seq<(Seq<char>, Shareholder)>) -> int
    decreases hs.len(),
{
    if hs.len() == 0 {
        0
    } else {
        sum_shares(hs.drop_last()) + hs.last().1.shares
    }
}

/// The distributor's invariant: distinct accounts, the stored total equals
/// the sum of stakes, and no checkpoint runs ahead of the accumulator.
pub open spec fn inv(v: DivView) -> bool {
    &&& kv_unique(v.holders)
    &&& v.total_shares == sum_shares(v.holders)
    &&& forall|i: int| 0 <= i < v.holders.len() ==> (#[trigger] v.holders[i]).1.checkpoint
        <= v.cps
}

/// The stake held by `a`, zero for an unknown account.
pub open spec fn held(v: DivView, a: Seq<char>) -> int {
    if kv_has(v.holders, a) {
        kv_val(v.holders, a).shares as int
    } else {
        0
    }
}

/// Creation on first touch: an unknown account gets an empty record whose
/// checkpoint is the current accumulator value, so that nothing distributed
/// before its creation can ever be claimed by it.
pub open spec fn spec_create(v: DivView, a: Seq<char>) -> DivView {
    if kv_has(v.holders, a) {
        v
    } else {
        DivView {
            holders: v.holders.push(
                (a, Shareholder { shares: 0, accrued: 0, checkpoint: v.cps }),
            ),
            ..v
        }
    }
}

/// The value newly owed to holder record `h` under accumulator `cps`.
pub open spec fn owed_of(h: Shareholder, cps: u128) -> int {
    s_mul(h.shares as int, s_sub(cps as int, h.checkpoint as int)) / PRECISION as int
}

/// Reconciliation: accumulator growth since the account's checkpoint, times
/// its stake, is converted into accrued value; the checkpoint advances to the
/// current accumulator. An unknown account is left untouched.
pub open spec fn spec_accrue(v: DivView, a: Seq<char>) -> DivView {
    if !kv_has(v.holders, a) {
        v
    } else {
        let i = kv_idx(v.holders, a);
        let h = v.holders[i].1;
        let delta = s_sub(v.cps as int, h.checkpoint as int);
        let h2 = if delta > 0 && h.shares > 0 {
            Shareholder {
                shares: h.shares,
                accrued: s_add(h.accrued as int, owed_of(h, v.cps)) as u128,
                checkpoint: v.cps,
            }
        } else {
            Shareholder { shares: h.shares, accrued: h.accrued, checkpoint: v.cps }
        };
        DivView { holders: v.holders.update(i, (a, h2)), ..v }
    }
}

/// Stake assignment: create on first touch, reconcile at the old stake, then
/// store the new stake and adjust the total by the difference.
pub open spec fn spec_set_shares(v: DivView, a: Seq<char>, ns: u128) -> DivView {
    let v1 = spec_accrue(spec_create(v, a), a);
    let i = kv_idx(v1.holders, a);
    let h = v1.holders[i].1;
    let nt = if v1.total_shares >= h.shares {
        v1.total_shares - h.shares + ns
    } else {
        ns as int
    };
    DivView {
        holders: v1.holders.update(
            i,
            (a, Shareholder { shares: ns, accrued: h.accrued, checkpoint: v1.cps }),
        ),
        total_shares: nt as u128,
        ..v1
    }
}

/// The scaled per-share increment a deposit of `amount` produces.
pub open spec fn per_share_of(v: DivView, amount: u128) -> int {
    s_mul(amount as int, PRECISION as int) / v.total_shares as int
}

/// The portion of `amount` actually attributed through the accumulator;
/// the rest is rounding dust.
pub open spec fn distributed_of(v: DivView, amount: u128) -> int {
    s_mul(per_share_of(v, amount), v.total_shares as int) / PRECISION as int
}

/// Distribution: with no stake, or an increment too small to register, the
/// whole amount is deferred to `undist`; otherwise the accumulator advances
/// and the rounding dust is deferred. Value is never silently dropped.
pub open spec fn spec_deposit(v: DivView, amount: u128) -> DivView {
    if amount == 0 {
        v
    } else if v.total_shares == 0 {
        DivView { undist: s_add(v.undist as int, amount as int) as u128, ..v }
    } else {
        let per = per_share_of(v, amount);
        if per == 0 {
            DivView { undist: s_add(v.undist as int, amount as int) as u128, ..v }
        } else {
            let d = distributed_of(v, amount);
            DivView {
                cps: s_add(v.cps as int, per) as u128,
                undist: if amount as int > d {
                    s_add(v.undist as int, amount as int - d) as u128
                } else {
                    v.undist
                },
                ..v
            }
        }
    }
}

/// Recycling: the undistributed pool is cleared and re-deposited.
pub open spec fn spec_recycle(v: DivView) -> DivView {
    spec_deposit(DivView { undist: 0, ..v }, v.undist)
}

/// The amount a claim returns: the account's accrued value after
/// reconciliation.
pub open spec fn spec_claim_amount(v: DivView, a: Seq<char>) -> int {
    let v1 = spec_accrue(v, a);
    kv_val(v1.holders, a).accrued as int
}

/// The state a claim leaves: reconciled, with the accrued value drained.
pub open spec fn spec_claim_state(v: DivView, a: Seq<char>) -> DivView {
    let v1 = spec_accrue(v, a);
    let i = kv_idx(v1.holders, a);
    let h = v1.holders[i].1;
    DivView {
        holders: v1.holders.update(
            i,
            (a, Shareholder { shares: h.shares, accrued: 0, checkpoint: h.checkpoint }),
        ),
        ..v1
    }
}

proof fn lemma_sum_shares_update(hs: Seq<(Seq<char>, Shareholder)>, i: int, p: (Seq<char>, Shareholder))
    requires
        0 <= i < hs.len(),
    ensures
        sum_shares(hs.update(i, p)) == sum_shares(hs) - hs[i].1.shares + p.1.shares,
    decreases hs.len(),
{
    let t = hs.update(i, p);
    if i == hs.len() - 1 {
        assert(t.drop_last() =~= hs.drop_last());
        assert(t.last() == p);
    } else {
        assert(t.drop_last() =~= hs.drop_last().update(i, p));
        lemma_sum_shares_update(hs.drop_last(), i, p);
        assert(t.last() == hs.last());
    }
}

proof fn lemma_sum_shares_push(hs: Seq<(Seq<char>, Shareholder)>, p: (Seq<char>, Shareholder))
    ensures
        sum_shares(hs.push(p)) == sum_shares(hs) + p.1.shares,
{
    assert(hs.push(p).drop_last() =~= hs);
    assert(hs.push(p).last() == p);
}

proof fn lemma_sum_shares_element(hs: Seq<(Seq<char>, Shareholder)>, i: int)
    requires
        0 <= i < hs.len(),
    ensures
        hs[i].1.shares <= sum_shares(hs),
    decreases hs.len(),
{
    lemma_sum_shares_nonneg(hs);
    if i == hs.len() - 1 {
        lemma_sum_shares_nonneg(hs.drop_last());
    } else {
        lemma_sum_shares_element(hs.drop_last(), i);
        assert(hs.drop_last()[i] == hs[i]);
    }
}

proof fn lemma_sum_shares_nonneg(hs: Seq<(Seq<char>, Shareholder)>)
    ensures
        sum_shares(hs) >= 0,
    decreases hs.len(),
{
    if hs.len() > 0 {
        lemma_sum_shares_nonneg(hs.drop_last());
    }
}

/// A pro-rata value-distribution ledger: accounts hold shares, deposits
/// advance a single cumulative per-share accumulator, and each account is
/// lazily reconciled against it when touched. No operation iterates over all
/// accounts.
pub struct DividendDistributor {
    shareholders: StrMap<Shareholder>,
    pub total_shares: u128,
    cumulative_per_share: u128,
    pub undistributed: u128,
}

impl DividendDistributor {
    pub closed spec fn view(&self) -> DivView {
        DivView {
            holders: self.shareholders@,
            total_shares: self.total_shares,
            cps: self.cumulative_per_share,
            undist: self.undistributed,
        }
    }

    pub closed spec fn wf(&self) -> bool {
        self.shareholders.wf() && inv(self@)
    }

    /// The well-formedness a constructor establishes gives the public
    /// invariant of the view, so the laws apply to every reachable state.
    pub proof fn lemma_wf_implies_inv(&self)
        requires
            self.wf(),
        ensures
            inv(self@),
    {
    }

    pub fn new() -> (r: Self)
        ensures
            r.wf(),
            r@.holders == Seq::<(Seq<char>, Shareholder)>::empty(),
            r@.total_shares == 0,
            r@.cps == 0,
            r@.undist == 0,
    {
        DividendDistributor {
            shareholders: StrMap::new(),
            total_shares: 0,
            cumulative_per_share: 0,
            undistributed: 0,
        }
    }

    /// Reconciles `account` against the current accumulator.
    fn accrue(&mut self, account: &str)
        requires
            old(self).wf(),
        ensures
            final(self).wf(),
            final(self)@ == spec_accrue(old(self)@, account@),
    {
        let ghost pre = self@;
        match self.shareholders.index_of(account) {
            Some(i) => {
                let holder = *self.shareholders.val_at(i);
                let delta = sat_sub_u128(self.cumulative_per_share, holder.checkpoint);
                let h2 = if delta > 0 && holder.shares > 0 {
                    let owed = sat_mul_u128(holder.shares, delta) / PRECISION;
                    Shareholder {
                        shares: holder.shares,
                        accrued: sat_add_u128(holder.accrued, owed),
                        checkpoint: self.cumulative_per_share,
                    }
                } else {
                    Shareholder {
                        shares: holder.shares,
                        accrued: holder.accrued,
                        checkpoint: self.cumulative_per_share,
                    }
                };
                self.shareholders.set_val_at(i, h2);
                proof {
                    assert(self@.holders =~= spec_accrue(pre, account@).holders);
                    assert(self@ =~= spec_accrue(pre, account@));
                    lemma_sum_shares_update(pre.holders, i as int, (account@, h2));
                    assert(inv(self@));
                }
            },
            None => {
                proof {
                    assert(self@ =~= spec_accrue(pre, account@));
                }
            },
        }
    }

    /// Sets `account`'s stake to `shares` (absolute), reconciling the account
    /// first, so that value owed under the old stake is credited before the
    /// stake changes. The total stake moves by the difference.
    pub fn set_shares(&mut self, account: String, shares: u128)
        requires
            old(self).wf(),
            old(self)@.total_shares - held(old(self)@, account@) + shares <= u128::MAX,
        ensures
            final(self).wf(),
            final(self)@ == spec_set_shares(old(self)@, account@, shares),
            final(self)@.cps == old(self)@.cps,
            final(self)@.undist == old(self)@.undist,
            kv_has(final(self)@.holders, account@),
            kv_val(final(self)@.holders, account@).shares == shares,
            final(self)@.total_shares == old(self)@.total_shares - held(old(self)@, account@)
                + shares,
    {
        let ghost pre = self@;
        if !self.shareholders.contains_key(account.as_str()) {
            self.shareholders.insert(
                account.clone(),
                Shareholder { shares: 0, accrued: 0, checkpoint: self.cumulative_per_share },
            );
            proof {
                lemma_sum_shares_push(
                    pre.holders,
                    (account@, Shareholder { shares: 0, accrued: 0, checkpoint: pre.cps }),
                );
            }
        }
        let ghost created = self@;
        proof {
            assert(created =~= spec_create(pre, account@));
            assert(inv(created));
        }
        self.accrue(account.as_str());
        let ghost accrued_v = self@;
        proof {
            assert(accrued_v == spec_accrue(created, account@));
            assert(kv_has(created.holders, account@));
            assert(kv_has(accrued_v.holders, account@)) by {
                let j = kv_idx(created.holders, account@);
                assert(accrued_v.holders[j].0 == account@);
            }
        }
        match self.shareholders.index_of(account.as_str()) {
            Some(i) => {
                let holder = *self.shareholders.val_at(i);
                proof {
                    lemma_sum_shares_element(accrued_v.holders, i as int);
                    assert(holder.shares <= accrued_v.total_shares);
                    assert(held(pre, account@) == holder.shares) by {
                        if kv_has(pre.holders, account@) {
                            let j = kv_idx(pre.holders, account@);
                            kv_idx_unique(created.holders, account@, j);
                            kv_idx_unique(accrued_v.holders, account@, j);
                        } else {
                            kv_idx_unique(
                                created.holders,
                                account@,
                                created.holders.len() - 1,
                            );
                            kv_idx_unique(
                                accrued_v.holders,
                                account@,
                                created.holders.len() - 1,
                            );
                        }
                    }
                }
                if self.total_shares >= holder.shares {
                    self.total_shares = self.total_shares - holder.shares + shares;
                } else {
                    self.total_shares = shares;
                }
                let h2 = Shareholder {
                    shares,
                    accrued: holder.accrued,
                    checkpoint: self.cumulative_per_share,
                };
                self.shareholders.set_val_at(i, h2);
                proof {
                    assert(kv_val(accrued_v.holders, account@).checkpoint == accrued_v.cps);
                    assert(h2 == Shareholder {
                        shares,
                        accrued: holder.accrued,
                        checkpoint: holder.checkpoint,
                    });
                    assert(self@.holders =~= spec_set_shares(pre, account@, shares).holders);
                    assert(self@ =~= spec_set_shares(pre, account@, shares));
                    lemma_sum_shares_update(accrued_v.holders, i as int, (account@, h2));
                    assert(inv(self@));
                    kv_idx_unique(self@.holders, account@, i as int);
                }
            },
            None => {
                proof {
                    assert(false);
                }
            },
        }
    }

    /// Adds `amount` of value to the pool. With no stake, or an increment too
    /// small to register at the fixed-point scale, the whole amount is
    /// deferred to `undistributed`; otherwise the accumulator advances and
    /// only the rounding dust is deferred.
    pub fn deposit_dividends(&mut self, amount: u128)
        requires
            old(self).wf(),
        ensures
            final(self).wf(),
            final(self)@ == spec_deposit(old(self)@, amount),
            final(self)@.cps >= old(self)@.cps,
            final(self)@.holders == old(self)@.holders,
            final(self)@.total_shares == old(self)@.total_shares,
    {
        let ghost pre = self@;
        if amount == 0 {
            proof {
                assert(self@ =~= spec_deposit(pre, amount));
            }
            return ;
        }
        if self.total_shares == 0 {
            self.undistributed = sat_add_u128(self.undistributed, amount);
            proof {
                assert(self@ =~= spec_deposit(pre, amount));
            }
            return ;
        }
        let scaled = sat_mul_u128(amount, PRECISION);
        let per_share = scaled / self.total_shares;
        if per_share == 0 {
            self.undistributed = sat_add_u128(self.undistributed, amount);
            proof {
                assert(self@ =~= spec_deposit(pre, amount));
            }
            return ;
        }
        self.cumulative_per_share = sat_add_u128(self.cumulative_per_share, per_share);
        let distributed = sat_mul_u128(per_share, self.total_shares) / PRECISION;
        if amount > distributed {
            self.undistributed = sat_add_u128(self.undistributed, amount - distributed);
        }
        proof {
            assert(self@ =~= spec_deposit(pre, amount));
        }
    }

    /// Clears the undistributed pool and deposits it again, so that deferred
    /// value can reach accounts once stake exists or the dust has grown large
    /// enough to register.
    pub fn recycle_undistributed(&mut self)
        requires
            old(self).wf(),
        ensures
            final(self).wf(),
            final(self)@ == spec_recycle(old(self)@),
            final(self)@.cps >= old(self)@.cps,
    {
        let ghost pre = self@;
        let pending = self.undistributed;
        self.undistributed = 0;
        proof {
            assert(self@ =~= DivView { undist: 0, ..pre });
        }
        self.deposit_dividends(pending);
    }

    /// Reconciles `account` and drains its accrued value. An account never
    /// seen fails; a claim with nothing owed succeeds with zero.
    pub fn claim(&mut self, account: &str) -> (r: Result<u128, &'static str>)
        requires
            old(self).wf(),
        ensures
            final(self).wf(),
            !kv_has(old(self)@.holders, account@) ==> r == Err::<u128, &'static str>(
                "unknown shareholder",
            ) && final(self)@ == old(self)@,
            kv_has(old(self)@.holders, account@) ==> r == Ok::<u128, &'static str>(
                spec_claim_amount(old(self)@, account@) as u128,
            ) && final(self)@ == spec_claim_state(old(self)@, account@),
            final(self)@.cps == old(self)@.cps,
            final(self)@.total_shares == old(self)@.total_shares,
            final(self)@.undist == old(self)@.undist,
    {
        let ghost pre = self@;
        let exists_now = self.shareholders.contains_key(account);
        if !exists_now {
            return Err("unknown shareholder");
        }
        self.accrue(account);
        let ghost accrued_v = self@;
        proof {
            assert(kv_has(accrued_v.holders, account@)) by {
                let j = kv_idx(pre.holders, account@);
                assert(accrued_v.holders[j].0 == account@);
            }
        }
        match self.shareholders.index_of(account) {
            Some(i) => {
                let holder = *self.shareholders.val_at(i);
                let amount = holder.accrued;
                self.shareholders.set_val_at(
                    i,
                    Shareholder { shares: holder.shares, accrued: 0, checkpoint: holder.checkpoint },
                );
                proof {
                    assert(kv_val(accrued_v.holders, account@) == holder);
                    assert(self@.holders =~= spec_claim_state(pre, account@).holders);
                    assert(self@ =~= spec_claim_state(pre, account@));
                    lemma_sum_shares_update(
                        accrued_v.holders,
                        i as int,
                        (
                            account@,
                            Shareholder {
                                shares: holder.shares,
                                accrued: 0,
                                checkpoint: holder.checkpoint,
                            },
                        ),
                    );
                    assert(inv(self@));
                }
                Ok(amount)
            },
            None => {
                proof {
                    assert(false);
                }
                Err("unknown shareholder")
            },
        }
    }

    /// The number of shareholder records, for hosts that persist the ledger.
    pub fn holder_count(&self) -> (r: usize)
        ensures
            r == self@.holders.len(),
    {
        self.shareholders.len()
    }

    /// One shareholder record by position — account, stake, accrued value and
    /// checkpoint — for hosts that persist the ledger.
    pub fn holder_at(&self, i: usize) -> (r: (String, u128, u128, u128))
        requires
            i < self@.holders.len(),
        ensures
            r.0@ == self@.holders[i as int].0,
            r.1 == self@.holders[i as int].1.shares,
            r.2 == self@.holders[i as int].1.accrued,
            r.3 == self@.holders[i as int].1.checkpoint,
    {
        let key = self.shareholders.key_at(i).clone();
        let h = *self.shareholders.val_at(i);
        (key, h.shares, h.accrued, h.checkpoint)
    }

    /// The cumulative per-share accumulator, for hosts that persist the
    /// ledger.
    pub fn accumulator(&self) -> (r: u128)
        ensures
            r == self@.cps,
    {
        self.cumulative_per_share
    }

    /// What a claim would pay right now: the account's value reconciled up to
    /// the current accumulator, computed without persisting anything.
    pub fn preview_pending(&self, account: &str) -> (r: Option<u128>)
        requires
            self.wf(),
        ensures
            match r {
                Some(v) => kv_has(self@.holders, account@) && v == spec_claim_amount(
                    self@,
                    account@,
                ),
                None => !kv_has(self@.holders, account@),
            },
    {
        match self.shareholders.index_of(account) {
            Some(i) => {
                let holder = *self.shareholders.val_at(i);
                let delta = sat_sub_u128(self.cumulative_per_share, holder.checkpoint);
                proof {
                    let w = spec_accrue(self@, account@);
                    assert(w.holders[i as int].0 == account@);
                    kv_idx_unique(w.holders, account@, i as int);
                }
                if delta > 0 && holder.shares > 0 {
                    let owed = sat_mul_u128(holder.shares, delta) / PRECISION;
                    Some(sat_add_u128(holder.accrued, owed))
                } else {
                    Some(holder.accrued)
                }
            },
            None => None,
        }
    }

    /// Reads an account's stake and reconciled-but-unclaimed value, without
    /// reconciling it.
    pub fn info(&self, account: &str) -> (r: Option<(u128, u128)>)
        requires
            self.wf(),
        ensures
            match r {
                Some(p) => kv_has(self@.holders, account@) && p.0 == kv_val(
                    self@.holders,
                    account@,
                ).shares && p.1 == kv_val(self@.holders, account@).accrued,
                None => !kv_has(self@.holders, account@),
            },
    {
        match self.shareholders.get(account) {
            Some(h) => Some((h.shares, h.accrued)),
            None => None,
        }
    }
}

/// Law: the cumulative per-share accumulator never decreases, whichever
/// operation is applied.
pub proof fn lemma_accumulator_monotonic(v: DivView, a: Seq<char>, ns: u128, amount: u128)
    ensures
        spec_deposit(v, amount).cps >= v.cps,
        spec_recycle(v).cps >= v.cps,
        spec_set_shares(v, a, ns).cps == v.cps,
        spec_accrue(v, a).cps == v.cps,
        spec_claim_state(v, a).cps == v.cps,
{
}

/// Law: an account first staked after any number of distributions accrues
/// nothing from them — its first claim returns zero, whatever its stake.
pub proof fn lemma_no_retroactive_gain(v: DivView, a: Seq<char>, ns: u128)
    requires
        inv(v),
        !kv_has(v.holders, a),
    ensures
        spec_claim_amount(spec_set_shares(v, a, ns), a) == 0,
{
    let c = spec_create(v, a);
    let n = c.holders.len() - 1;
    kv_idx_unique(c.holders, a, n);
    let v1 = spec_accrue(c, a);
    assert(v1.holders[n].0 == a);
    kv_idx_unique(v1.holders, a, n);
    assert(kv_val(v1.holders, a).accrued == 0);
    let w = spec_set_shares(v, a, ns);
    assert(w.holders[n].0 == a);
    kv_idx_unique(w.holders, a, n);
    assert(kv_val(w.holders, a) == Shareholder { shares: ns, accrued: 0, checkpoint: v.cps });
    let w1 = spec_accrue(w, a);
    kv_idx_unique(w1.holders, a, n);
    assert(kv_val(w1.holders, a).accrued == 0);
}

/// Law: claiming twice in a row, with no distribution in between, yields the
/// owed amount once and zero the second time.
pub proof fn lemma_claim_idempotent(v: DivView, a: Seq<char>)
    requires
        inv(v),
        kv_has(v.holders, a),
    ensures
        spec_claim_amount(spec_claim_state(v, a), a) == 0,
{
    let i = kv_idx(v.holders, a);
    let v1 = spec_accrue(v, a);
    assert(v1.holders[i].0 == a);
    kv_idx_unique(v1.holders, a, i);
    let w = spec_claim_state(v, a);
    assert(w.holders[i].0 == a);
    kv_idx_unique(w.holders, a, i);
    let h = kv_val(w.holders, a);
    assert(h.accrued == 0);
    assert(h.checkpoint == v.cps);
    assert(w.cps == v.cps);
    let w1 = spec_accrue(w, a);
    kv_idx_unique(w1.holders, a, i);
    assert(kv_val(w1.holders, a).accrued == 0);
}

/// Law: a distribution while no stake exists defers the whole amount and
/// touches no account: every balance is exactly as before.
pub proof fn lemma_zero_stake_distribution(v: DivView, amount: u128)
    requires
        v.total_shares == 0,
    ensures
        spec_deposit(v, amount).holders == v.holders,
        spec_deposit(v, amount).cps == v.cps,
        spec_deposit(v, amount).undist == s_add(v.undist as int, amount as int),
{
    if amount == 0 {
        assert(s_add(v.undist as int, 0) == v.undist as int);
        assert(spec_deposit(v, amount) =~= v);
    }
}

/// Law (conservation at a deposit): when the arithmetic stays inside the
/// 128-bit domain, a deposit splits its amount exactly into the attributed
/// portion and the deferred remainder — value is neither created nor
/// destroyed at the point of distribution.
pub proof fn lemma_deposit_conserves(v: DivView, amount: u128)
    requires
        inv(v),
        v.total_shares > 0,
        amount > 0,
        amount * PRECISION <= u128::MAX,
        v.undist + amount <= u128::MAX,
        v.cps + per_share_of(v, amount) <= u128::MAX,
    ensures
        per_share_of(v, amount) == 0 ==> spec_deposit(v, amount).undist == v.undist + amount
            && spec_deposit(v, amount).cps == v.cps,
        per_share_of(v, amount) > 0 ==> {
            &&& 0 <= distributed_of(v, amount) <= amount
            &&& spec_deposit(v, amount).undist == v.undist + amount - distributed_of(v, amount)
            &&& spec_deposit(v, amount).cps == v.cps + per_share_of(v, amount)
            &&& (spec_deposit(v, amount).undist - v.undist) + distributed_of(v, amount)
                == amount
        },
{
    let t = v.total_shares as int;
    let p = PRECISION as int;
    let a = amount as int;
    assert(s_mul(a, p) == a * p);
    let per = (a * p) / t;
    vstd::arithmetic::div_mod::lemma_fundamental_div_mod(a * p, t);
    vstd::arithmetic::div_mod::lemma_mod_division_less_than_divisor(a * p, t);
    assert(a * p == t * per + (a * p) % t);
    assert(t * per <= a * p);
    vstd::arithmetic::div_mod::lemma_div_pos_is_pos(a * p, t);
    assert(per >= 0) by {
        assert(a * p >= 0) by (nonlinear_arith)
            requires
                a >= 0,
                p >= 0,
        ;
    }
    if per > 0 {
        assert(per * t <= u128::MAX) by (nonlinear_arith)
            requires
                t * per <= a * p,
                a * p <= u128::MAX,
                per * t == t * per,
        ;
        assert(s_mul(per, t) == per * t);
        let d = (per * t) / p;
        vstd::arithmetic::div_mod::lemma_fundamental_div_mod(per * t, p);
        vstd::arithmetic::div_mod::lemma_mod_division_less_than_divisor(per * t, p);
        assert(p * d <= per * t);
        assert(per * t <= a * p) by (nonlinear_arith)
            requires
                t * per <= a * p,
        ;
        assert(d <= a) by (nonlinear_arith)
            requires
                p * d <= a * p,
                p > 0,
        ;
        vstd::arithmetic::div_mod::lemma_div_pos_is_pos(per * t, p);
        assert(d >= 0);
        assert(distributed_of(v, amount) == d);
        if a > d {
            assert(spec_deposit(v, amount).undist == v.undist + a - d);
        } else {
            assert(d == a);
            assert(spec_deposit(v, amount).undist == v.undist);
        }
    }
}

/// Law (no value created): what one account accrues from an accumulator
/// advance never exceeds what that advance attributed to the whole pool —
/// a stake within the total earns at most the distributed portion.
pub proof fn lemma_owed_bounded(h: Shareholder, total: u128, cps_before: u128, cps_after: u128)
    requires
        h.shares <= total,
        h.checkpoint == cps_before,
        cps_before <= cps_after,
        total * (cps_after - cps_before) <= u128::MAX,
    ensures
        owed_of(h, cps_after) <= s_mul(total as int, cps_after - cps_before) / PRECISION as int,
{
    let delta = cps_after - cps_before;
    assert(s_sub(cps_after as int, h.checkpoint as int) == delta);
    assert(h.shares * delta <= total * delta) by (nonlinear_arith)
        requires
            h.shares <= total,
            delta >= 0,
    ;
    assert(s_mul(h.shares as int, delta) == h.shares * delta);
    assert(s_mul(total as int, delta) == total * delta);
    vstd::arithmetic::div_mod::lemma_div_is_ordered(
        h.shares * delta,
        total * delta,
        PRECISION as int,
    );
}

/// Sum of what each record is owed under accumulator `cps`.
pub open spec fn sum_owed(hs: Seq<(Seq<char>, Shareholder)>, cps: u128) -> int
    decreases hs.len(),
{
    if hs.len() == 0 {
        0
    } else {
        sum_owed(hs.drop_last(), cps) + owed_of(hs.last().1, cps)
    }
}

/// Law (no value created, pool-wide): when every account stands reconciled at
/// `cps0` and the accumulator then advances to `cps`, the accounts' owed
/// values sum to at most the whole stake's pro-rata portion of the advance —
/// per-account rounding only ever loses value to the pool, never mints it.
pub proof fn lemma_total_owed_bounded(hs: Seq<(Seq<char>, Shareholder)>, cps0: u128, cps: u128)
    requires
        cps0 <= cps,
        forall|i: int| 0 <= i < hs.len() ==> (#[trigger] hs[i]).1.checkpoint == cps0,
        sum_shares(hs) * (cps - cps0) <= u128::MAX,
    ensures
        sum_owed(hs, cps) <= sum_shares(hs) * (cps - cps0) / PRECISION as int,
    decreases hs.len(),
{
    let d = PRECISION as int;
    let delta = cps - cps0;
    if hs.len() == 0 {
        assert(0int * delta == 0) by (nonlinear_arith);
        vstd::arithmetic::div_mod::lemma_div_of0(d);
    } else {
        let rest = hs.drop_last();
        let h = hs.last().1;
        let s_rest = sum_shares(rest);
        let s_all = sum_shares(hs);
        lemma_sum_shares_nonneg(rest);
        lemma_sum_shares_element(hs, hs.len() - 1);
        assert(s_all == s_rest + h.shares);
        assert(s_rest * delta <= s_all * delta && h.shares * delta <= s_all * delta && 0 <= s_rest
            * delta && 0 <= h.shares * delta && s_rest * delta + h.shares * delta == s_all * delta)
            by (nonlinear_arith)
            requires
                0 <= s_rest,
                0 <= h.shares,
                0 <= delta,
                s_all == s_rest + h.shares,
        ;
        lemma_total_owed_bounded(rest, cps0, cps);
        assert(owed_of(h, cps) == h.shares * delta / d) by {
            assert(s_sub(cps as int, h.checkpoint as int) == delta);
            assert(s_mul(h.shares as int, delta) == h.shares * delta);
        }
        let a = s_rest * delta;
        let b = h.shares * delta;
        let qa = a / d;
        let qb = b / d;
        vstd::arithmetic::div_mod::lemma_fundamental_div_mod(a, d);
        vstd::arithmetic::div_mod::lemma_mod_division_less_than_divisor(a, d);
        vstd::arithmetic::div_mod::lemma_fundamental_div_mod(b, d);
        vstd::arithmetic::div_mod::lemma_mod_division_less_than_divisor(b, d);
        assert(d * (qa + qb) <= a + b) by (nonlinear_arith)
            requires
                a == d * qa + a % d,
                b == d * qb + b % d,
                a % d >= 0,
                b % d >= 0,
        ;
        vstd::arithmetic::div_mod::lemma_div_multiples_vanish(qa + qb, d);
        vstd::arithmetic::div_mod::lemma_div_is_ordered(d * (qa + qb), a + b, d);
        assert(qa + qb <= (a + b) / d);
    }
}

/// Law (conservation at a claim): a claim pays out exactly the reconciled
/// entitlement and leaves every other part of the state — other accounts, the
/// total stake, the accumulator, the undistributed pool — unchanged.
pub proof fn lemma_claim_conserves(v: DivView, a: Seq<char>)
    requires
        inv(v),
        kv_has(v.holders, a),
    ensures
        spec_claim_amount(v, a) == s_add(
            kv_val(v.holders, a).accrued as int,
            if s_sub(v.cps as int, kv_val(v.holders, a).checkpoint as int) > 0 && kv_val(
                v.holders,
                a,
            ).shares > 0 {
                owed_of(kv_val(v.holders, a), v.cps)
            } else {
                0
            },
        ),
        kv_val(spec_claim_state(v, a).holders, a).accrued == 0,
        spec_claim_state(v, a).total_shares == v.total_shares,
        spec_claim_state(v, a).cps == v.cps,
        spec_claim_state(v, a).undist == v.undist,
        spec_claim_state(v, a).holders.len() == v.holders.len(),
        forall|j: int| 0 <= j < v.holders.len() && v.holders[j].0 != a ==> spec_claim_state(
            v,
            a,
        ).holders[j] == v.holders[j],
{
    let i = kv_idx(v.holders, a);
    let v1 = spec_accrue(v, a);
    assert(v1.holders[i].0 == a);
    kv_idx_unique(v1.holders, a, i);
    let w = spec_claim_state(v, a);
    assert(w.holders[i].0 == a);
    kv_idx_unique(w.holders, a, i);
    let h = v.holders[i].1;
    assert(kv_val(v.holders, a) == h);
    if s_sub(v.cps as int, h.checkpoint as int) > 0 && h.shares > 0 {
        assert(kv_val(v1.holders, a).accrued == s_add(h.accrued as int, owed_of(h, v.cps)));
    } else {
        assert(kv_val(v1.holders, a).accrued == h.accrued);
        assert(s_add(h.accrued as int, 0) == h.accrued as int);
    }
}

} // verus!
