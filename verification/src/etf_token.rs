use vstd::prelude::*;
use crate::arith::{s_add, s_mul, sat_add_u128, sat_mul_u128};
use crate::balances::{credit, debit, spec_balance, spec_credit, spec_debit};
use crate::kv::{kv_has, kv_idx, kv_val};
use crate::smap::StrMap;
use crate::strutil::str_eq_string;

verus! {

/// The sum of all recorded holding values.
pub open spec fn sum_vals(s: Seq<(Seq<char>, u128)>) -> int
    decreases s.len(),
{
    if s.len() == 0 {
        0
    } else {
        sum_vals(s.drop_last()) + s.last().1
    }
}

/// The fund's net asset value: its cash reserve plus all holding values,
/// saturating at the top of the domain.
pub open spec fn spec_nav(cash: u128, holdings: Seq<(Seq<char>, u128)>) -> int {
    s_add(cash as int, sum_vals(holdings))
}

/// An exchange-traded fund token: a manager deposits and re-values assets,
/// mints shares against collateral, and holders redeem shares at net asset
/// value.
pub struct ETFToken {
    pub manager: String,
    pub share_supply: u128,
    pub holdings_value: StrMap<u128>,
    pub cash_reserve: u128,
    pub balances: StrMap<u128>,
}

impl ETFToken {
    pub open spec fn wf(&self) -> bool {
        self.holdings_value.wf() && self.balances.wf()
    }

    pub fn new(manager: String) -> (r: Self)
        ensures
            r.wf(),
            r.manager == manager,
            r.share_supply == 0,
            r.holdings_value@ == Seq::<(Seq<char>, u128)>::empty(),
            r.cash_reserve == 0,
            r.balances@ == Seq::<(Seq<char>, u128)>::empty(),
    {
        ETFToken {
            manager,
            share_supply: 0,
            holdings_value: StrMap::new(),
            cash_reserve: 0,
            balances: StrMap::new(),
        }
    }

    /// The manager deposits an asset's value, growing both that holding and
    /// the cash reserve.
    pub fn deposit_asset(&mut self, caller: &str, asset: String, value: u128) -> (r: Result<
        (),
        &'static str,
    >)
        requires
            old(self).wf(),
        ensures
            final(self).wf(),
            caller@ != old(self).manager@ ==> r == Err::<(), &'static str>("only manager")
                && *final(self) == *old(self),
            caller@ == old(self).manager@ ==> r == Ok::<(), &'static str>(()) && final(self).holdings_value@ == spec_credit(old(self).holdings_value@, asset@, value) && final(self).cash_reserve == s_add(old(self).cash_reserve as int, value as int) && final(self).balances@ == old(self).balances@ && final(self).share_supply == old(self).share_supply,
    {
        if !str_eq_string(caller, &self.manager) {
            return Err("only manager");
        }
        credit(&mut self.holdings_value, asset, value);
        self.cash_reserve = sat_add_u128(self.cash_reserve, value);
        Ok(())
    }

    /// The manager re-marks an asset's value outright.
    pub fn update_asset_value(&mut self, caller: &str, asset: String, value: u128) -> (r: Result<
        (),
        &'static str,
    >)
        requires
            old(self).wf(),
        ensures
            final(self).wf(),
            caller@ != old(self).manager@ ==> r == Err::<(), &'static str>("only manager")
                && *final(self) == *old(self),
            caller@ == old(self).manager@ && kv_has(old(self).holdings_value@, asset@) ==> r
                == Ok::<(), &'static str>(()) && final(self).holdings_value@ == old(self).holdings_value@.update(kv_idx(old(self).holdings_value@, asset@), (asset@, value)),
            caller@ == old(self).manager@ && !kv_has(old(self).holdings_value@, asset@) ==> r
                == Ok::<(), &'static str>(()) && final(self).holdings_value@ == old(self).holdings_value@.push((asset@, value)),
            caller@ == old(self).manager@ ==> final(self).cash_reserve == old(self).cash_reserve
                && final(self).balances@ == old(self).balances@ && final(self).share_supply == old(self).share_supply,
    {
        if !str_eq_string(caller, &self.manager) {
            return Err("only manager");
        }
        self.holdings_value.insert(asset, value);
        Ok(())
    }

    /// The manager mints shares to `to` against collateral drawn from the
    /// cash reserve.
    pub fn mint_shares(&mut self, caller: &str, to: String, shares: u128, collateral_value: u128)
        -> (r: Result<(), &'static str>)
        requires
            old(self).wf(),
        ensures
            final(self).wf(),
            caller@ != old(self).manager@ ==> r == Err::<(), &'static str>("only manager")
                && *final(self) == *old(self),
            caller@ == old(self).manager@ && shares == 0 ==> r == Err::<(), &'static str>(
                "invalid shares",
            ) && *final(self) == *old(self),
            caller@ == old(self).manager@ && shares > 0 && collateral_value > old(self).cash_reserve ==> r == Err::<(), &'static str>("insufficient collateral") && *final(self) == *old(self),
            caller@ == old(self).manager@ && shares > 0 && collateral_value <= old(self).cash_reserve ==> r == Ok::<(), &'static str>(()) && final(self).cash_reserve == old(self).cash_reserve - collateral_value && final(self).share_supply == s_add(
                old(self).share_supply as int,
                shares as int,
            ) && final(self).balances@ == spec_credit(old(self).balances@, to@, shares) && final(self).holdings_value@ == old(self).holdings_value@,
    {
        if !str_eq_string(caller, &self.manager) {
            return Err("only manager");
        }
        if shares == 0 {
            return Err("invalid shares");
        }
        if collateral_value > self.cash_reserve {
            return Err("insufficient collateral");
        }
        self.cash_reserve = self.cash_reserve - collateral_value;
        self.share_supply = sat_add_u128(self.share_supply, shares);
        credit(&mut self.balances, to, shares);
        Ok(())
    }

    /// A holder redeems shares at net asset value. Every failure — including
    /// a redemption the cash reserve cannot cover — leaves the fund exactly
    /// as it was.
    pub fn redeem_shares(&mut self, holder: &str, shares: u128) -> (r: Result<u128, &'static str>)
        requires
            old(self).wf(),
            sum_vals(old(self).holdings_value@) <= u128::MAX,
            shares > 0 && old(self).share_supply > 0 && kv_has(old(self).balances@, holder@)
                && kv_val(old(self).balances@, holder@) >= shares ==> shares <= old(
                self,
            ).share_supply,
        ensures
            final(self).wf(),
            final(self).holdings_value@ == old(self).holdings_value@,
            shares == 0 ==> r == Err::<u128, &'static str>("invalid shares") && *final(self)
                == *old(self),
            shares > 0 && old(self).share_supply == 0 ==> r == Err::<u128, &'static str>(
                "no supply",
            ) && *final(self) == *old(self),
            shares > 0 && old(self).share_supply > 0 && !(kv_has(old(self).balances@, holder@)
                && kv_val(old(self).balances@, holder@) >= shares) ==> r == Err::<
                u128,
                &'static str,
            >("insufficient") && *final(self) == *old(self),
            shares > 0 && old(self).share_supply > 0 && kv_has(old(self).balances@, holder@)
                && kv_val(old(self).balances@, holder@) >= shares && ({
                let value = s_mul(spec_nav(old(self).cash_reserve, old(self).holdings_value@), shares as int)
                    / old(self).share_supply as int;
                value > old(self).cash_reserve
            }) ==> r == Err::<u128, &'static str>("insufficient liquidity") && *final(self)
                == *old(self),
            shares > 0 && old(self).share_supply > 0 && kv_has(old(self).balances@, holder@)
                && kv_val(old(self).balances@, holder@) >= shares && ({
                let value = s_mul(spec_nav(old(self).cash_reserve, old(self).holdings_value@), shares as int)
                    / old(self).share_supply as int;
                value <= old(self).cash_reserve
            }) ==> ({
                let value = s_mul(spec_nav(old(self).cash_reserve, old(self).holdings_value@), shares as int)
                    / old(self).share_supply as int;
                &&& r == Ok::<u128, &'static str>(value as u128)
                &&& final(self).balances@ == spec_debit(old(self).balances@, holder@, shares)
                &&& final(self).share_supply == old(self).share_supply - shares
                &&& final(self).cash_reserve == old(self).cash_reserve - value
            }),
    {
        if shares == 0 {
            return Err("invalid shares");
        }
        if self.share_supply == 0 {
            return Err("no supply");
        }
        let nav = self.total_nav();
        let supply = self.share_supply;
        let balance: u128 = match self.balances.get(holder) {
            Some(b) => *b,
            None => {
                return Err("insufficient");
            },
        };
        if balance < shares {
            return Err("insufficient");
        }
        let denom: u128 = if supply >= 1 {
            supply
        } else {
            1
        };
        let redemption_value = sat_mul_u128(nav, shares) / denom;
        if redemption_value > self.cash_reserve {
            return Err("insufficient liquidity");
        }
        let ok = debit(&mut self.balances, holder, shares);
        proof {
            assert(ok);
        }
        self.share_supply = self.share_supply - shares;
        self.cash_reserve = self.cash_reserve - redemption_value;
        Ok(redemption_value)
    }

    /// The fund's net asset value: cash reserve plus all holding values.
    pub fn total_nav(&self) -> (r: u128)
        requires
            self.wf(),
            sum_vals(self.holdings_value@) <= u128::MAX,
        ensures
            r == spec_nav(self.cash_reserve, self.holdings_value@),
    {
        let n: usize = self.holdings_value.len();
        let mut sum: u128 = 0;
        let mut i: usize = 0;
        proof {
            assert(self.holdings_value@.take(0) =~= Seq::<(Seq<char>, u128)>::empty());
            lemma_sum_vals_nonneg(self.holdings_value@);
        }
        while i < n
            invariant
                0 <= i <= n,
                n == self.holdings_value@.len(),
                self.wf(),
                sum_vals(self.holdings_value@) <= u128::MAX,
                sum == sum_vals(self.holdings_value@.take(i as int)),
                sum <= sum_vals(self.holdings_value@),
            decreases n - i,
        {
            proof {
                assert(self.holdings_value@.take(i as int + 1).drop_last() =~= self.holdings_value@.take(i as int));
                assert(self.holdings_value@.take(i as int + 1).last() == self.holdings_value@[i as int]);
                lemma_sum_vals_prefix(self.holdings_value@, i as int + 1);
                lemma_sum_vals_nonneg(self.holdings_value@.take(i as int + 1));
            }
            sum = sum + *self.holdings_value.val_at(i);
            i += 1;
        }
        proof {
            assert(self.holdings_value@.take(n as int) =~= self.holdings_value@);
        }
        sat_add_u128(self.cash_reserve, sum)
    }
}

/// Every holding value is non-negative, so prefix sums never exceed the whole.
proof fn lemma_sum_vals_prefix(s: Seq<(Seq<char>, u128)>, k: int)
    requires
        0 <= k <= s.len(),
    ensures
        sum_vals(s.take(k)) <= sum_vals(s),
    decreases s.len() - k,
{
    if k == s.len() {
        assert(s.take(k) =~= s);
    } else {
        lemma_sum_vals_prefix(s, k + 1);
        assert(s.take(k + 1).drop_last() =~= s.take(k));
        assert(s.take(k + 1).last() == s[k]);
    }
}

proof fn lemma_sum_vals_nonneg(s: Seq<(Seq<char>, u128)>)
    ensures
        sum_vals(s) >= 0,
    decreases s.len(),
{
    if s.len() > 0 {
        lemma_sum_vals_nonneg(s.drop_last());
    }
}

} // verus!
