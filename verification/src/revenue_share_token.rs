use vstd::prelude::*;
use crate::arith::{s_add, s_sub, s_mul, sat_add_u128, sat_sub_u128, sat_mul_u128};
use crate::kv::{kv_has, kv_idx, kv_val, kv_unique, kv_idx_unique};
use crate::smap::StrMap;
use crate::strutil::str_eq_string;

verus! {

/// Fixed-point scale for the reward-per-token accumulator.
pub const PRECISION: u128 = 1_000_000_000_000;

/// Per-holder record: token balance, the accumulator snapshot at the last
/// reconciliation (`reward_debt`), and reconciled-but-unclaimed rewards.
#[derive(Clone, Copy)]
pub struct HolderInfo {
    pub balance: u128,
    pub reward_debt: u128,
    pub pending: u128,
}

/// The abstract state of the token: holder records in insertion order, total
/// supply, the reward-per-token accumulator (scaled by `PRECISION`), and the
/// undistributed remainder retained from past distributions.
#[verifier::ext_equal]
pub ghost struct RstView {
    pub name: Seq<char>,
    pub symbol: Seq<char>,
    pub owner: Seq<char>,
    pub total_supply: u128,
    pub rpt: u128,
    pub undist: u128,
    pub holders: Seq<(Seq<char>, HolderInfo)>,
}

/// Invariant: distinct holders, and no reward debt ahead of the accumulator.
pub open spec fn inv(v: RstView) -> bool {
    &&& kv_unique(v.holders)
    &&& forall|i: int| 0 <= i < v.holders.len() ==> (#[trigger] v.holders[i]).1.reward_debt
        <= v.rpt
}

/// The reward newly owed to record `h` under accumulator `rpt`.
pub open spec fn owed_of(h: HolderInfo, rpt: u128) -> int {
    s_mul(h.balance as int, s_sub(rpt as int, h.reward_debt as int)) / PRECISION as int
}

/// Creation on first touch: an unknown account gets an empty record whose
/// reward debt is the current accumulator, so past distributions are not
/// claimable by it.
pub open spec fn spec_ensure(v: RstView, a: Seq<char>) -> RstView {
    if kv_has(v.holders, a) {
        v
    } else {
        RstView {
            holders: v.holders.push((a, HolderInfo { balance: 0, reward_debt: v.rpt, pending: 0 })),
            ..v
        }
    }
}

/// Reconciliation: accumulator growth since the account's snapshot, times its
/// balance, is converted into pending rewards; the snapshot advances.
pub open spec fn spec_sync(v: RstView, a: Seq<char>) -> RstView {
    if !kv_has(v.holders, a) {
        v
    } else {
        let i = kv_idx(v.holders, a);
        let h = v.holders[i].1;
        let h2 = HolderInfo {
            balance: h.balance,
            reward_debt: v.rpt,
            pending: s_add(h.pending as int, owed_of(h, v.rpt)) as u128,
        };
        RstView { holders: v.holders.update(i, (a, h2)), ..v }
    }
}

/// Minting (owner only): supply grows, the recipient is created on first
/// touch and reconciled, then its balance grows.
pub open spec fn spec_mint(v: RstView, to: Seq<char>, amount: u128) -> RstView {
    let v1 = RstView { total_supply: s_add(v.total_supply as int, amount as int) as u128, ..v };
    let v2 = spec_sync(spec_ensure(v1, to), to);
    let i = kv_idx(v2.holders, to);
    let h = v2.holders[i].1;
    RstView {
        holders: v2.holders.update(
            i,
            (
                to,
                HolderInfo {
                    balance: s_add(h.balance as int, amount as int) as u128,
                    reward_debt: v2.rpt,
                    pending: h.pending,
                },
            ),
        ),
        ..v2
    }
}

/// Burning (owner only, sufficient balance): the holder is reconciled, then
/// its balance and the supply shrink.
pub open spec fn spec_burn(v: RstView, from: Seq<char>, amount: u128) -> RstView {
    let v1 = spec_sync(v, from);
    let i = kv_idx(v1.holders, from);
    let h = v1.holders[i].1;
    RstView {
        holders: v1.holders.update(
            i,
            (
                from,
                HolderInfo {
                    balance: (h.balance - amount) as u128,
                    reward_debt: v1.rpt,
                    pending: h.pending,
                },
            ),
        ),
        total_supply: s_sub(v1.total_supply as int, amount as int) as u128,
        ..v1
    }
}

/// Transfer: both parties are reconciled against the same accumulator value,
/// then the balance moves; the supply is untouched.
pub open spec fn spec_transfer(v: RstView, from: Seq<char>, to: Seq<char>, amount: u128) -> RstView {
    let v1 = spec_sync(v, from);
    let i = kv_idx(v1.holders, from);
    let h1 = v1.holders[i].1;
    let v2 = RstView {
        holders: v1.holders.update(
            i,
            (
                from,
                HolderInfo {
                    balance: (h1.balance - amount) as u128,
                    reward_debt: v1.rpt,
                    pending: h1.pending,
                },
            ),
        ),
        ..v1
    };
    let v3 = spec_sync(spec_ensure(v2, to), to);
    let j = kv_idx(v3.holders, to);
    let h2 = v3.holders[j].1;
    RstView {
        holders: v3.holders.update(
            j,
            (
                to,
                HolderInfo {
                    balance: s_add(h2.balance as int, amount as int) as u128,
                    reward_debt: v3.rpt,
                    pending: h2.pending,
                },
            ),
        ),
        ..v3
    }
}

/// The scaled per-token increment a distribution of `amount` produces.
pub open spec fn increment_of(v: RstView, amount: u128) -> int {
    s_mul(amount as int, PRECISION as int) / v.total_supply as int
}

/// The portion of `amount` actually attributed through the accumulator; the
/// rest is rounding dust.
pub open spec fn attributed_of(v: RstView, amount: u128) -> int {
    s_mul(increment_of(v, amount), v.total_supply as int) / PRECISION as int
}

/// Distribution: with no supply, or an increment too small to register, the
/// whole amount is deferred to the undistributed remainder; otherwise the
/// accumulator advances and the rounding dust is deferred. Value is never
/// silently dropped.
pub open spec fn spec_distribute(v: RstView, amount: u128) -> RstView {
    if amount == 0 {
        v
    } else if v.total_supply == 0 {
        RstView { undist: s_add(v.undist as int, amount as int) as u128, ..v }
    } else {
        let inc = increment_of(v, amount);
        if inc == 0 {
            RstView { undist: s_add(v.undist as int, amount as int) as u128, ..v }
        } else {
            let d = attributed_of(v, amount);
            RstView {
                rpt: s_add(v.rpt as int, inc) as u128,
                undist: if amount as int > d {
                    s_add(v.undist as int, amount as int - d) as u128
                } else {
                    v.undist
                },
                ..v
            }
        }
    }
}

/// The amount a claim returns: the account's pending rewards after
/// reconciliation.
pub open spec fn spec_claim_amount(v: RstView, a: Seq<char>) -> int {
    kv_val(spec_sync(v, a).holders, a).pending as int
}

/// The state a claim leaves: reconciled, with the pending rewards drained.
pub open spec fn spec_claim_state(v: RstView, a: Seq<char>) -> RstView {
    let v1 = spec_sync(v, a);
    let i = kv_idx(v1.holders, a);
    let h = v1.holders[i].1;
    RstView {
        holders: v1.holders.update(
            i,
            (a, HolderInfo { balance: h.balance, reward_debt: h.reward_debt, pending: 0 }),
        ),
        ..v1
    }
}

/// A revenue-sharing token: balances entitle their holders to a pro-rata
/// portion of each distribution, reconciled lazily through a reward-per-token
/// accumulator.
pub struct RevenueShareToken {
    pub name: String,
    pub symbol: String,
    pub owner: String,
    pub total_supply: u128,
    pub undistributed: u128,
    reward_per_token: u128,
    holders: StrMap<HolderInfo>,
}

impl RevenueShareToken {
    pub closed spec fn view(&self) -> RstView {
        RstView {
            name: self.name@,
            symbol: self.symbol@,
            owner: self.owner@,
            total_supply: self.total_supply,
            rpt: self.reward_per_token,
            undist: self.undistributed,
            holders: self.holders@,
        }
    }

    pub closed spec fn wf(&self) -> bool {
        self.holders.wf() && inv(self@)
    }

    /// The well-formedness a constructor establishes gives the public
    /// invariant of the view, so the laws apply to every reachable state.
    pub proof fn lemma_wf_implies_inv(&self)
        requires
            self.wf(),
        ensures
            inv(self@),
    {
    }

    pub fn new(name: String, symbol: String, owner: String) -> (r: Self)
        ensures
            r.wf(),
            r@.name == name@,
            r@.symbol == symbol@,
            r@.owner == owner@,
            r@.total_supply == 0,
            r@.rpt == 0,
            r@.undist == 0,
            r@.holders == Seq::<(Seq<char>, HolderInfo)>::empty(),
    {
        RevenueShareToken {
            name,
            symbol,
            owner,
            total_supply: 0,
            undistributed: 0,
            reward_per_token: 0,
            holders: StrMap::new(),
        }
    }

    /// Creates an empty record for `account` if none exists.
    fn ensure_holder(&mut self, account: &str)
        requires
            old(self).wf(),
        ensures
            final(self).wf(),
            final(self)@ == spec_ensure(old(self)@, account@),
            kv_has(final(self)@.holders, account@),
    {
        let ghost pre = self@;
        if !self.holders.contains_key(account) {
            self.holders.insert(
                account.to_owned(),
                HolderInfo { balance: 0, reward_debt: self.reward_per_token, pending: 0 },
            );
            proof {
                assert(self@ =~= spec_ensure(pre, account@));
                assert(self@.holders[self@.holders.len() - 1].0 == account@);
            }
        } else {
            proof {
                assert(self@ =~= spec_ensure(pre, account@));
            }
        }
    }

    /// Reconciles `account` against the current accumulator.
    fn sync_holder(&mut self, account: &str)
        requires
            old(self).wf(),
        ensures
            final(self).wf(),
            final(self)@ == spec_sync(old(self)@, account@),
            kv_has(old(self)@.holders, account@) ==> kv_has(final(self)@.holders, account@),
    {
        let ghost pre = self@;
        match self.holders.index_of(account) {
            Some(i) => {
                let h = *self.holders.val_at(i);
                let accrued = sat_mul_u128(
                    h.balance,
                    sat_sub_u128(self.reward_per_token, h.reward_debt),
                ) / PRECISION;
                let h2 = HolderInfo {
                    balance: h.balance,
                    reward_debt: self.reward_per_token,
                    pending: sat_add_u128(h.pending, accrued),
                };
                self.holders.set_val_at(i, h2);
                proof {
                    assert(self@.holders =~= spec_sync(pre, account@).holders);
                    assert(self@ =~= spec_sync(pre, account@));
                    assert(self@.holders[i as int].0 == account@);
                }
            },
            None => {
                proof {
                    assert(self@ =~= spec_sync(pre, account@));
                }
            },
        }
    }

    /// Mints `amount` to `to`. Only the owner may mint.
    pub fn mint(&mut self, caller: &str, to: String, amount: u128) -> (r: Result<
        (),
        &'static str,
    >)
        requires
            old(self).wf(),
        ensures
            final(self).wf(),
            caller@ != old(self)@.owner ==> r == Err::<(), &'static str>("only owner") && final(self)@ == old(self)@,
            caller@ == old(self)@.owner ==> r == Ok::<(), &'static str>(()) && final(self)@
                == spec_mint(old(self)@, to@, amount),
    {
        let ghost pre = self@;
        if !str_eq_string(caller, &self.owner) {
            return Err("only owner");
        }
        self.total_supply = sat_add_u128(self.total_supply, amount);
        let ghost v1 = self@;
        self.ensure_holder(to.as_str());
        self.sync_holder(to.as_str());
        let ghost v2 = self@;
        proof {
            assert(kv_has(v2.holders, to@)) by {
                let j = kv_idx(spec_ensure(v1, to@).holders, to@);
                assert(v2.holders[j].0 == to@);
            }
        }
        match self.holders.index_of(to.as_str()) {
            Some(i) => {
                let h = *self.holders.val_at(i);
                let h2 = HolderInfo {
                    balance: sat_add_u128(h.balance, amount),
                    reward_debt: self.reward_per_token,
                    pending: h.pending,
                };
                self.holders.set_val_at(i, h2);
                proof {
                    assert(kv_val(v2.holders, to@).reward_debt == v2.rpt);
                    assert(self@.holders =~= spec_mint(pre, to@, amount).holders);
                    assert(self@ =~= spec_mint(pre, to@, amount));
                }
                Ok(())
            },
            None => {
                proof {
                    assert(false);
                }
                Err("only owner")
            },
        }
    }

    /// Burns `amount` from `from`. Only the owner may burn; fails when the
    /// balance is insufficient, leaving `from` merely reconciled.
    pub fn burn(&mut self, caller: &str, from: &str, amount: u128) -> (r: Result<
        (),
        &'static str,
    >)
        requires
            old(self).wf(),
        ensures
            final(self).wf(),
            caller@ != old(self)@.owner ==> r == Err::<(), &'static str>("only owner") && final(self)@ == old(self)@,
            caller@ == old(self)@.owner && !kv_has(old(self)@.holders, from@) ==> r == Err::<
                (),
                &'static str,
            >("no balance") && final(self)@ == old(self)@,
            caller@ == old(self)@.owner && kv_has(old(self)@.holders, from@) && kv_val(
                old(self)@.holders,
                from@,
            ).balance < amount ==> r == Err::<(), &'static str>("insufficient") && final(self)@
                == spec_sync(old(self)@, from@),
            caller@ == old(self)@.owner && kv_has(old(self)@.holders, from@) && kv_val(
                old(self)@.holders,
                from@,
            ).balance >= amount ==> r == Ok::<(), &'static str>(()) && final(self)@ == spec_burn(
                old(self)@,
                from@,
            amount),
    {
        let ghost pre = self@;
        if !str_eq_string(caller, &self.owner) {
            return Err("only owner");
        }
        self.sync_holder(from);
        let ghost v1 = self@;
        match self.holders.index_of(from) {
            Some(i) => {
                let h = *self.holders.val_at(i);
                proof {
                    let j = kv_idx(pre.holders, from@);
                    assert(v1.holders[j].0 == from@);
                    kv_idx_unique(v1.holders, from@, j);
                    assert(h.balance == kv_val(pre.holders, from@).balance);
                }
                if h.balance < amount {
                    return Err("insufficient");
                }
                let h2 = HolderInfo {
                    balance: h.balance - amount,
                    reward_debt: self.reward_per_token,
                    pending: h.pending,
                };
                self.holders.set_val_at(i, h2);
                self.total_supply = sat_sub_u128(self.total_supply, amount);
                proof {
                    assert(kv_val(v1.holders, from@).reward_debt == v1.rpt);
                    assert(self@.holders =~= spec_burn(pre, from@, amount).holders);
                    assert(self@ =~= spec_burn(pre, from@, amount));
                }
                Ok(())
            },
            None => Err("no balance"),
        }
    }

    /// Moves `amount` from `from` to `to`, reconciling both against the same
    /// accumulator value. An insufficient balance fails, leaving `from`
    /// merely reconciled.
    pub fn transfer(&mut self, from: &str, to: String, amount: u128) -> (r: Result<
        (),
        &'static str,
    >)
        requires
            old(self).wf(),
        ensures
            final(self).wf(),
            !kv_has(old(self)@.holders, from@) ==> r == Err::<(), &'static str>("no balance")
                && final(self)@ == old(self)@,
            kv_has(old(self)@.holders, from@) && kv_val(old(self)@.holders, from@).balance
                < amount ==> r == Err::<(), &'static str>("insufficient") && final(self)@
                == spec_sync(old(self)@, from@),
            kv_has(old(self)@.holders, from@) && kv_val(old(self)@.holders, from@).balance
                >= amount ==> r == Ok::<(), &'static str>(()) && final(self)@ == spec_transfer(
                old(self)@,
                from@,
                to@,
                amount,
            ),
            final(self)@.total_supply == old(self)@.total_supply,
            final(self)@.rpt == old(self)@.rpt,
    {
        let ghost pre = self@;
        self.sync_holder(from);
        let ghost v1 = self@;
        match self.holders.index_of(from) {
            Some(i) => {
                let h1 = *self.holders.val_at(i);
                proof {
                    let j = kv_idx(pre.holders, from@);
                    assert(v1.holders[j].0 == from@);
                    kv_idx_unique(v1.holders, from@, j);
                    assert(h1.balance == kv_val(pre.holders, from@).balance);
                }
                if h1.balance < amount {
                    return Err("insufficient");
                }
                let h1b = HolderInfo {
                    balance: h1.balance - amount,
                    reward_debt: self.reward_per_token,
                    pending: h1.pending,
                };
                self.holders.set_val_at(i, h1b);
                let ghost v2 = self@;
                proof {
                    assert(v2.holders =~= v1.holders.update(i as int, (from@, h1b)));
                }
                self.ensure_holder(to.as_str());
                self.sync_holder(to.as_str());
                let ghost v3 = self@;
                proof {
                    assert(kv_has(v3.holders, to@)) by {
                        let j = kv_idx(spec_ensure(v2, to@).holders, to@);
                        assert(v3.holders[j].0 == to@);
                    }
                }
                match self.holders.index_of(to.as_str()) {
                    Some(k) => {
                        let h2 = *self.holders.val_at(k);
                        let h2b = HolderInfo {
                            balance: sat_add_u128(h2.balance, amount),
                            reward_debt: self.reward_per_token,
                            pending: h2.pending,
                        };
                        self.holders.set_val_at(k, h2b);
                        proof {
                            assert(kv_val(v3.holders, to@).reward_debt == v3.rpt);
                            assert(self@.holders =~= spec_transfer(
                                pre,
                                from@,
                                to@,
                                amount,
                            ).holders);
                            assert(self@ =~= spec_transfer(pre, from@, to@, amount));
                        }
                        Ok(())
                    },
                    None => {
                        proof {
                            assert(false);
                        }
                        Err("no balance")
                    },
                }
            },
            None => Err("no balance"),
        }
    }

    /// Advances the reward-per-token accumulator by the scaled per-token
    /// increment of `amount`. With no supply, or an increment too small to
    /// register at the fixed-point scale, the whole amount is retained as
    /// undistributed; otherwise only the rounding dust is.
    pub fn distribute(&mut self, amount: u128)
        requires
            old(self).wf(),
        ensures
            final(self).wf(),
            final(self)@ == spec_distribute(old(self)@, amount),
            final(self)@.rpt >= old(self)@.rpt,
            final(self)@.holders == old(self)@.holders,
            final(self)@.total_supply == old(self)@.total_supply,
            amount > 0 && (old(self)@.total_supply == 0 || increment_of(old(self)@, amount) == 0)
                ==> final(self)@.undist == s_add(old(self)@.undist as int, amount as int),
            amount > 0 && old(self)@.total_supply > 0 && increment_of(old(self)@, amount) > 0
                && amount > attributed_of(old(self)@, amount) ==> final(self)@.undist == s_add(
                old(self)@.undist as int,
                amount - attributed_of(old(self)@, amount),
            ),
    {
        let ghost pre = self@;
        if amount == 0 {
            proof {
                assert(self@ =~= spec_distribute(pre, amount));
            }
            return ;
        }
        if self.total_supply == 0 {
            self.undistributed = sat_add_u128(self.undistributed, amount);
            proof {
                assert(self@ =~= spec_distribute(pre, amount));
            }
            return ;
        }
        let increment = sat_mul_u128(amount, PRECISION) / self.total_supply;
        if increment == 0 {
            self.undistributed = sat_add_u128(self.undistributed, amount);
            proof {
                assert(self@ =~= spec_distribute(pre, amount));
            }
            return ;
        }
        self.reward_per_token = sat_add_u128(self.reward_per_token, increment);
        let attributed = sat_mul_u128(increment, self.total_supply) / PRECISION;
        if amount > attributed {
            self.undistributed = sat_add_u128(self.undistributed, amount - attributed);
        }
        proof {
            assert(self@ =~= spec_distribute(pre, amount));
        }
    }

    /// Reconciles `account` and drains its pending rewards. An account never
    /// seen fails; a claim with nothing owed succeeds with zero.
    pub fn claim(&mut self, account: &str) -> (r: Result<u128, &'static str>)
        requires
            old(self).wf(),
        ensures
            final(self).wf(),
            !kv_has(old(self)@.holders, account@) ==> r == Err::<u128, &'static str>("no balance")
                && final(self)@ == old(self)@,
            kv_has(old(self)@.holders, account@) ==> r == Ok::<u128, &'static str>(
                spec_claim_amount(old(self)@, account@) as u128,
            ) && final(self)@ == spec_claim_state(old(self)@, account@),
            final(self)@.rpt == old(self)@.rpt,
            final(self)@.total_supply == old(self)@.total_supply,
    {
        let ghost pre = self@;
        self.sync_holder(account);
        let ghost v1 = self@;
        match self.holders.index_of(account) {
            Some(i) => {
                proof {
                    let j = kv_idx(pre.holders, account@);
                    assert(v1.holders[j].0 == account@);
                    kv_idx_unique(v1.holders, account@, j);
                }
                let h = *self.holders.val_at(i);
                let amount = h.pending;
                self.holders.set_val_at(
                    i,
                    HolderInfo { balance: h.balance, reward_debt: h.reward_debt, pending: 0 },
                );
                proof {
                    assert(self@.holders =~= spec_claim_state(pre, account@).holders);
                    assert(self@ =~= spec_claim_state(pre, account@));
                }
                Ok(amount)
            },
            None => Err("no balance"),
        }
    }
}

/// Law (conservation at a distribution): when the arithmetic stays inside
/// the 128-bit domain, a distribution splits its amount exactly into the
/// attributed portion and the retained remainder — value is neither created
/// nor destroyed at the point of distribution.
pub proof fn lemma_distribute_conserves(v: RstView, amount: u128)
    requires
        inv(v),
        v.total_supply > 0,
        amount > 0,
        amount * PRECISION <= u128::MAX,
        v.undist + amount <= u128::MAX,
        v.rpt + increment_of(v, amount) <= u128::MAX,
    ensures
        increment_of(v, amount) == 0 ==> spec_distribute(v, amount).undist == v.undist + amount
            && spec_distribute(v, amount).rpt == v.rpt,
        increment_of(v, amount) > 0 ==> {
            &&& 0 <= attributed_of(v, amount) <= amount
            &&& spec_distribute(v, amount).undist == v.undist + amount - attributed_of(v, amount)
            &&& spec_distribute(v, amount).rpt == v.rpt + increment_of(v, amount)
            &&& (spec_distribute(v, amount).undist - v.undist) + attributed_of(v, amount) == amount
        },
{
    let t = v.total_supply as int;
    let p = PRECISION as int;
    let a = amount as int;
    assert(s_mul(a, p) == a * p);
    let inc = (a * p) / t;
    vstd::arithmetic::div_mod::lemma_fundamental_div_mod(a * p, t);
    vstd::arithmetic::div_mod::lemma_mod_division_less_than_divisor(a * p, t);
    assert(t * inc <= a * p);
    vstd::arithmetic::div_mod::lemma_div_pos_is_pos(a * p, t);
    assert(inc >= 0) by {
        assert(a * p >= 0) by (nonlinear_arith)
            requires
                a >= 0,
                p >= 0,
        ;
    }
    if inc > 0 {
        assert(inc * t <= u128::MAX) by (nonlinear_arith)
            requires
                t * inc <= a * p,
                a * p <= u128::MAX,
                inc * t == t * inc,
        ;
        assert(s_mul(inc, t) == inc * t);
        let d = (inc * t) / p;
        vstd::arithmetic::div_mod::lemma_fundamental_div_mod(inc * t, p);
        vstd::arithmetic::div_mod::lemma_mod_division_less_than_divisor(inc * t, p);
        assert(p * d <= inc * t);
        assert(inc * t <= a * p) by (nonlinear_arith)
            requires
                t * inc <= a * p,
        ;
        assert(d <= a) by (nonlinear_arith)
            requires
                p * d <= a * p,
                p > 0,
        ;
        vstd::arithmetic::div_mod::lemma_div_pos_is_pos(inc * t, p);
        assert(d >= 0);
        assert(attributed_of(v, amount) == d);
        if a > d {
            assert(spec_distribute(v, amount).undist == v.undist + a - d);
        } else {
            assert(d == a);
            assert(spec_distribute(v, amount).undist == v.undist);
        }
    }
}

/// Law (transfer neutrality): a transfer leaves the total supply and the
/// accumulator unchanged, moves exactly `amount` of balance, and changes the
/// parties' pending rewards only by what each had independently accrued up to
/// the transfer point.
pub proof fn lemma_transfer_neutral(v: RstView, from: Seq<char>, to: Seq<char>, amount: u128)
    requires
        inv(v),
        from != to,
        kv_has(v.holders, from),
        kv_val(v.holders, from).balance >= amount,
        kv_val(v.holders, from).pending + owed_of(kv_val(v.holders, from), v.rpt) <= u128::MAX,
        kv_has(v.holders, to) ==> kv_val(v.holders, to).pending + owed_of(
            kv_val(v.holders, to),
            v.rpt,
        ) <= u128::MAX,
        kv_has(v.holders, to) ==> kv_val(v.holders, to).balance + amount <= u128::MAX,
    ensures
        spec_transfer(v, from, to, amount).total_supply == v.total_supply,
        spec_transfer(v, from, to, amount).rpt == v.rpt,
        kv_val(spec_transfer(v, from, to, amount).holders, from).balance == kv_val(
            v.holders,
            from,
        ).balance - amount,
        kv_val(spec_transfer(v, from, to, amount).holders, to).balance == (if kv_has(
            v.holders,
            to,
        ) {
            kv_val(v.holders, to).balance as int
        } else {
            0
        }) + amount,
        kv_val(spec_transfer(v, from, to, amount).holders, from).pending == kv_val(
            v.holders,
            from,
        ).pending + owed_of(kv_val(v.holders, from), v.rpt),
        kv_val(spec_transfer(v, from, to, amount).holders, to).pending == if kv_has(
            v.holders,
            to,
        ) {
            kv_val(v.holders, to).pending + owed_of(kv_val(v.holders, to), v.rpt)
        } else {
            0
        },
{
    let i = kv_idx(v.holders, from);
    let v1 = spec_sync(v, from);
    assert(v1.holders[i].0 == from);
    kv_idx_unique(v1.holders, from, i);
    let h1 = v1.holders[i].1;
    let h1b = HolderInfo {
        balance: (h1.balance - amount) as u128,
        reward_debt: v1.rpt,
        pending: h1.pending,
    };
    let v2 = RstView { holders: v1.holders.update(i, (from, h1b)), ..v1 };
    kv_idx_unique(v2.holders, from, i);
    let e = spec_ensure(v2, to);
    if kv_has(v.holders, to) {
        let j = kv_idx(v.holders, to);
        assert(v1.holders[j].0 == to);
        assert(v2.holders[j].0 == to);
        kv_idx_unique(v2.holders, to, j);
        assert(kv_has(v2.holders, to));
        assert(e == v2);
        let v3 = spec_sync(e, to);
        kv_idx_unique(v3.holders, to, j);
        assert(v2.holders[j].1 == v.holders[j].1);
        let h2 = v3.holders[j].1;
        let w = spec_transfer(v, from, to, amount);
        assert(w.holders == v3.holders.update(
            j,
            (
                to,
                HolderInfo {
                    balance: s_add(h2.balance as int, amount as int) as u128,
                    reward_debt: v3.rpt,
                    pending: h2.pending,
                },
            ),
        ));
        kv_idx_unique(w.holders, to, j);
        assert(w.holders[i].0 == from);
        kv_idx_unique(w.holders, from, i);
    } else {
        assert(!kv_has(v2.holders, to)) by {
            if kv_has(v2.holders, to) {
                let j = kv_idx(v2.holders, to);
                assert(v.holders[j].0 == to);
            }
        }
        let n = v2.holders.len();
        assert(e.holders[n as int].0 == to);
        kv_idx_unique(e.holders, to, n as int);
        let v3 = spec_sync(e, to);
        kv_idx_unique(v3.holders, to, n as int);
        let h2 = v3.holders[n as int].1;
        assert(h2.pending == 0);
        assert(h2.balance == 0);
        let w = spec_transfer(v, from, to, amount);
        kv_idx_unique(w.holders, to, n as int);
        assert(w.holders[i].0 == from);
        kv_idx_unique(w.holders, from, i);
    }
}

} // verus!
