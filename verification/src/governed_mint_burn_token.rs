use vstd::prelude::*;
use crate::arith::{s_add, s_sub, sat_add_u128, sat_sub_u128};
use crate::balances::{balance_in, credit, debit, spec_balance, spec_credit, spec_debit};
use crate::kv::{kv_has, kv_val};
use crate::smap::StrMap;
use crate::strutil::str_eq_string;

verus! {

/// A token whose minting and burning are reserved to a governance account.
pub struct GovernedMintBurnToken {
    pub name: String,
    pub symbol: String,
    pub governance: String,
    pub total_supply: u128,
    pub balances: StrMap<u128>,
}

impl GovernedMintBurnToken {
    pub open spec fn view(&self) -> Seq<(Seq<char>, u128)> {
        self.balances@
    }

    pub open spec fn wf(&self) -> bool {
        self.balances.wf()
    }

    pub fn new(name: String, symbol: String, governance: String) -> (r: Self)
        ensures
            r.wf(),
            r.name == name,
            r.symbol == symbol,
            r.governance == governance,
            r.total_supply == 0,
            r@ == Seq::<(Seq<char>, u128)>::empty(),
    {
        GovernedMintBurnToken {
            name,
            symbol,
            governance,
            total_supply: 0,
            balances: StrMap::new(),
        }
    }

    /// An account's balance, zero when unknown.
    pub fn balance_of(&self, owner: &str) -> (r: u128)
        requires
            self.wf(),
        ensures
            r == spec_balance(self@, owner@),
    {
        balance_in(&self.balances, owner)
    }

    /// Governance mints `amount` to `to`, growing the supply.
    pub fn mint(&mut self, caller: &str, to: String, amount: u128) -> (r: Result<
        (),
        &'static str,
    >)
        requires
            old(self).wf(),
        ensures
            final(self).wf(),
            caller@ != old(self).governance@ ==> r == Err::<(), &'static str>("only governance")
                && *final(self) == *old(self),
            caller@ == old(self).governance@ ==> r == Ok::<(), &'static str>(()) && final(self)@
                == spec_credit(old(self)@, to@, amount) && final(self).total_supply == s_add(
                old(self).total_supply as int,
                amount as int,
            ) && final(self).governance == old(self).governance,
    {
        if !str_eq_string(caller, &self.governance) {
            return Err("only governance");
        }
        credit(&mut self.balances, to, amount);
        self.total_supply = sat_add_u128(self.total_supply, amount);
        Ok(())
    }

    /// Governance burns `amount` from `from`, shrinking the supply; an
    /// unknown account or one short of funds fails and changes nothing.
    pub fn burn(&mut self, caller: &str, from: &str, amount: u128) -> (r: Result<
        (),
        &'static str,
    >)
        requires
            old(self).wf(),
        ensures
            final(self).wf(),
            caller@ != old(self).governance@ ==> r == Err::<(), &'static str>("only governance")
                && *final(self) == *old(self),
            caller@ == old(self).governance@ && !(kv_has(old(self)@, from@) && kv_val(
                old(self)@,
                from@,
            ) >= amount) ==> r == Err::<(), &'static str>("insufficient") && *final(self) == *old(self),
            caller@ == old(self).governance@ && kv_has(old(self)@, from@) && kv_val(
                old(self)@,
                from@,
            ) >= amount ==> r == Ok::<(), &'static str>(()) && final(self)@ == spec_debit(
                old(self)@,
                from@,
                amount,
            ) && final(self).total_supply == s_sub(old(self).total_supply as int, amount as int),
    {
        if !str_eq_string(caller, &self.governance) {
            return Err("only governance");
        }
        let ok = debit(&mut self.balances, from, amount);
        if !ok {
            return Err("insufficient");
        }
        self.total_supply = sat_sub_u128(self.total_supply, amount);
        Ok(())
    }

    /// Moves `amount` between holders; an unknown sender or one short of
    /// funds fails and changes nothing.
    pub fn transfer(&mut self, from: &str, to: String, amount: u128) -> (r: Result<
        (),
        &'static str,
    >)
        requires
            old(self).wf(),
        ensures
            final(self).wf(),
            final(self).total_supply == old(self).total_supply,
            !(kv_has(old(self)@, from@) && kv_val(old(self)@, from@) >= amount) ==> r == Err::<
                (),
                &'static str,
            >("insufficient") && *final(self) == *old(self),
            kv_has(old(self)@, from@) && kv_val(old(self)@, from@) >= amount ==> r == Ok::<
                (),
                &'static str,
            >(()) && final(self)@ == spec_credit(spec_debit(old(self)@, from@, amount), to@, amount),
    {
        let ok = debit(&mut self.balances, from, amount);
        if !ok {
            return Err("insufficient");
        }
        credit(&mut self.balances, to, amount);
        Ok(())
    }

    /// Governance hands its role to a new account.
    pub fn update_governance(&mut self, caller: &str, new_governance: String) -> (r: Result<
        (),
        &'static str,
    >)
        requires
            old(self).wf(),
        ensures
            final(self).wf(),
            caller@ != old(self).governance@ ==> r == Err::<(), &'static str>("only governance")
                && *final(self) == *old(self),
            caller@ == old(self).governance@ ==> r == Ok::<(), &'static str>(()) && final(self).governance == new_governance && final(self)@ == old(self)@ && final(self).total_supply
                == old(self).total_supply,
    {
        if !str_eq_string(caller, &self.governance) {
            return Err("only governance");
        }
        self.governance = new_governance;
        Ok(())
    }
}

} // verus!
