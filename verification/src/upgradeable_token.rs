use vstd::prelude::*;
use crate::arith::{s_add, sat_add_u128};
use crate::balances::{balance_in, credit, debit, spec_balance, spec_credit, spec_debit};
use crate::kv::{kv_has, kv_val};
use crate::smap::StrMap;
use crate::strutil::str_eq_string;

verus! {

/// A token whose owner can mint, record upgrades in a changelog, and hand the
/// contract over.
pub struct UpgradeableToken {
    pub name: String,
    pub symbol: String,
    pub owner: String,
    pub total_supply: u128,
    pub version: u32,
    pub balances: StrMap<u128>,
    pub changelog: Vec<String>,
}

impl UpgradeableToken {
    pub open spec fn view(&self) -> Seq<(Seq<char>, u128)> {
        self.balances@
    }

    pub open spec fn wf(&self) -> bool {
        self.balances.wf()
    }

    pub fn new(name: String, symbol: String, owner: String) -> (r: Self)
        ensures
            r.wf(),
            r.name == name,
            r.symbol == symbol,
            r.owner == owner,
            r.total_supply == 0,
            r.version == 1,
            r@ == Seq::<(Seq<char>, u128)>::empty(),
            r.changelog@.len() == 1,
            r.changelog@[0]@ == "initial deployment"@,
    {
        let mut changelog: Vec<String> = Vec::new();
        let first: &str = "initial deployment";
        changelog.push(first.to_owned());
        UpgradeableToken {
            name,
            symbol,
            owner,
            total_supply: 0,
            version: 1,
            balances: StrMap::new(),
            changelog,
        }
    }

    /// An account's balance, zero when unknown.
    pub fn balance_of(&self, owner: &str) -> (r: u128)
        requires
            self.wf(),
        ensures
            r == spec_balance(self@, owner@),
    {
        balance_in(&self.balances, owner)
    }

    /// The owner mints `amount` to `to`, growing the supply.
    pub fn mint(&mut self, caller: &str, to: String, amount: u128) -> (r: Result<
        (),
        &'static str,
    >)
        requires
            old(self).wf(),
        ensures
            final(self).wf(),
            caller@ != old(self).owner@ ==> r == Err::<(), &'static str>("only owner") && *final(self) == *old(self),
            caller@ == old(self).owner@ ==> r == Ok::<(), &'static str>(()) && final(self)@
                == spec_credit(old(self)@, to@, amount) && final(self).total_supply == s_add(
                old(self).total_supply as int,
                amount as int,
            ) && final(self).version == old(self).version && final(self).changelog
                == old(self).changelog,
    {
        if !str_eq_string(caller, &self.owner) {
            return Err("only owner");
        }
        credit(&mut self.balances, to, amount);
        self.total_supply = sat_add_u128(self.total_supply, amount);
        Ok(())
    }

    /// Moves `amount` between holders; an unknown sender or one short of
    /// funds fails and changes nothing.
    pub fn transfer(&mut self, from: &str, to: String, amount: u128) -> (r: Result<
        (),
        &'static str,
    >)
        requires
            old(self).wf(),
        ensures
            final(self).wf(),
            final(self).total_supply == old(self).total_supply,
            !(kv_has(old(self)@, from@) && kv_val(old(self)@, from@) >= amount) ==> r == Err::<
                (),
                &'static str,
            >("insufficient") && *final(self) == *old(self),
            kv_has(old(self)@, from@) && kv_val(old(self)@, from@) >= amount ==> r == Ok::<
                (),
                &'static str,
            >(()) && final(self)@ == spec_credit(spec_debit(old(self)@, from@, amount), to@, amount),
    {
        let ok = debit(&mut self.balances, from, amount);
        if !ok {
            return Err("insufficient");
        }
        credit(&mut self.balances, to, amount);
        Ok(())
    }

    /// The owner bumps the version and appends a note to the changelog.
    pub fn upgrade(&mut self, caller: &str, notes: String) -> (r: Result<(), &'static str>)
        requires
            old(self).wf(),
            old(self).version < u32::MAX,
        ensures
            final(self).wf(),
            caller@ != old(self).owner@ ==> r == Err::<(), &'static str>("only owner") && *final(self) == *old(self),
            caller@ == old(self).owner@ ==> r == Ok::<(), &'static str>(()) && final(self).version
                == old(self).version + 1 && final(self).changelog@ == old(self).changelog@.push(
                notes,
            ) && final(self)@ == old(self)@ && final(self).total_supply == old(self).total_supply,
    {
        if !str_eq_string(caller, &self.owner) {
            return Err("only owner");
        }
        self.version += 1;
        self.changelog.push(notes);
        Ok(())
    }

    /// The owner hands the contract to a new owner.
    pub fn change_owner(&mut self, caller: &str, new_owner: String) -> (r: Result<
        (),
        &'static str,
    >)
        requires
            old(self).wf(),
        ensures
            final(self).wf(),
            caller@ != old(self).owner@ ==> r == Err::<(), &'static str>("only owner") && *final(self) == *old(self),
            caller@ == old(self).owner@ ==> r == Ok::<(), &'static str>(()) && final(self).owner
                == new_owner && final(self)@ == old(self)@ && final(self).total_supply == old(self).total_supply,
    {
        if !str_eq_string(caller, &self.owner) {
            return Err("only owner");
        }
        self.owner = new_owner;
        Ok(())
    }
}

} // verus!
