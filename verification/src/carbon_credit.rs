use vstd::prelude::*;
use crate::arith::{s_add, sat_add_u128};
use crate::balances::{balance_in, credit, debit, spec_balance, spec_credit, spec_debit};
use crate::kv::{kv_has, kv_val};
use crate::smap::StrMap;
use crate::strutil::str_eq_string;

verus! {

/// A carbon-credit registry: an authority issues credits, holders transfer
/// them, and anyone may retire credits out of their own balance.
pub struct CarbonCredit {
    pub authority: String,
    pub balances: StrMap<u128>,
    pub total_issued: u128,
    pub total_retired: u128,
}

impl CarbonCredit {
    pub open spec fn view(&self) -> Seq<(Seq<char>, u128)> {
        self.balances@
    }

    pub open spec fn wf(&self) -> bool {
        self.balances.wf()
    }

    pub fn new(authority: String) -> (r: Self)
        ensures
            r.wf(),
            r.authority == authority,
            r@ == Seq::<(Seq<char>, u128)>::empty(),
            r.total_issued == 0,
            r.total_retired == 0,
    {
        CarbonCredit {
            authority,
            balances: StrMap::new(),
            total_issued: 0,
            total_retired: 0,
        }
    }

    /// An account's balance, zero when unknown.
    pub fn balance_of(&self, account: &str) -> (r: u128)
        requires
            self.wf(),
        ensures
            r == spec_balance(self@, account@),
    {
        balance_in(&self.balances, account)
    }

    /// The authority issues `amount` to `to`, growing the issued total.
    pub fn issue(&mut self, caller: &str, to: String, amount: u128) -> (r: Result<
        (),
        &'static str,
    >)
        requires
            old(self).wf(),
        ensures
            final(self).wf(),
            caller@ != old(self).authority@ ==> r == Err::<(), &'static str>("only authority")
                && *final(self) == *old(self),
            caller@ == old(self).authority@ ==> r == Ok::<(), &'static str>(()) && final(self)@
                == spec_credit(old(self)@, to@, amount) && final(self).total_issued == s_add(
                old(self).total_issued as int,
                amount as int,
            ) && final(self).total_retired == old(self).total_retired && final(self).authority
                == old(self).authority,
    {
        if !str_eq_string(caller, &self.authority) {
            return Err("only authority");
        }
        credit(&mut self.balances, to, amount);
        self.total_issued = sat_add_u128(self.total_issued, amount);
        Ok(())
    }

    /// Moves `amount` between holders; an unknown sender or one short of
    /// funds fails and changes nothing.
    pub fn transfer(&mut self, from: &str, to: String, amount: u128) -> (r: Result<
        (),
        &'static str,
    >)
        requires
            old(self).wf(),
        ensures
            final(self).wf(),
            final(self).total_issued == old(self).total_issued,
            final(self).total_retired == old(self).total_retired,
            !(kv_has(old(self)@, from@) && kv_val(old(self)@, from@) >= amount) ==> r == Err::<
                (),
                &'static str,
            >("insufficient") && *final(self) == *old(self),
            kv_has(old(self)@, from@) && kv_val(old(self)@, from@) >= amount ==> r == Ok::<
                (),
                &'static str,
            >(()) && final(self)@ == spec_credit(spec_debit(old(self)@, from@, amount), to@, amount),
    {
        let ok = debit(&mut self.balances, from, amount);
        if !ok {
            return Err("insufficient");
        }
        credit(&mut self.balances, to, amount);
        Ok(())
    }

    /// Retires `amount` out of the caller's balance, growing the retired
    /// total; short funds fail and change nothing.
    pub fn retire(&mut self, caller: &str, amount: u128) -> (r: Result<(), &'static str>)
        requires
            old(self).wf(),
        ensures
            final(self).wf(),
            final(self).total_issued == old(self).total_issued,
            !(kv_has(old(self)@, caller@) && kv_val(old(self)@, caller@) >= amount) ==> r == Err::<
                (),
                &'static str,
            >("insufficient") && *final(self) == *old(self),
            kv_has(old(self)@, caller@) && kv_val(old(self)@, caller@) >= amount ==> r == Ok::<
                (),
                &'static str,
            >(()) && final(self)@ == spec_debit(old(self)@, caller@, amount) && final(self).total_retired == s_add(old(self).total_retired as int, amount as int),
    {
        let ok = debit(&mut self.balances, caller, amount);
        if !ok {
            return Err("insufficient");
        }
        self.total_retired = sat_add_u128(self.total_retired, amount);
        Ok(())
    }
}

} // verus!
