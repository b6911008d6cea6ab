use vstd::prelude::*;
use crate::balances::{spec_balance, spec_debit};
use crate::kv::{kv_has, kv_idx, kv_val};
use crate::smap::StrMap;
use crate::strutil::str_eq_string;

verus! {

/// A lock-and-release bridge: locking grows an account's bridged balance, and
/// the admin releases value back out of it.
pub struct CrossChainBridge {
    pub admin: String,
    pub balances: StrMap<u128>,
}

impl CrossChainBridge {
    pub open spec fn view(&self) -> Seq<(Seq<char>, u128)> {
        self.balances@
    }

    pub open spec fn wf(&self) -> bool {
        self.balances.wf()
    }

    pub fn new(admin: String) -> (r: Self)
        ensures
            r.wf(),
            r.admin == admin,
            r@ == Seq::<(Seq<char>, u128)>::empty(),
    {
        CrossChainBridge { admin, balances: StrMap::new() }
    }

    /// Locks `amount` into `from`'s bridged balance, creating the account if
    /// needed.
    pub fn lock(&mut self, from: String, amount: u128)
        requires
            old(self).wf(),
            spec_balance(old(self)@, from@) + amount <= u128::MAX,
        ensures
            final(self).wf(),
            final(self).admin == old(self).admin,
            kv_has(old(self)@, from@) ==> final(self)@ == old(self)@.update(
                kv_idx(old(self)@, from@),
                (from@, (spec_balance(old(self)@, from@) + amount) as u128),
            ),
            !kv_has(old(self)@, from@) ==> final(self)@ == old(self)@.push((from@, amount)),
    {
        match self.balances.index_of(from.as_str()) {
            Some(i) => {
                let b = *self.balances.val_at(i);
                self.balances.set_val_at(i, b + amount);
            },
            None => {
                self.balances.insert(from, amount);
            },
        }
    }

    /// The admin releases `amount` out of `to`'s bridged balance; a short
    /// balance fails and changes nothing.
    pub fn release(&mut self, caller: &str, to: String, amount: u128) -> (r: Result<
        (),
        &'static str,
    >)
        requires
            old(self).wf(),
        ensures
            final(self).wf(),
            final(self).admin == old(self).admin,
            caller@ != old(self).admin@ ==> r == Err::<(), &'static str>("admin") && *final(self)
                == *old(self),
            caller@ == old(self).admin@ && spec_balance(old(self)@, to@) < amount ==> r == Err::<
                (),
                &'static str,
            >("insufficient") && *final(self) == *old(self),
            caller@ == old(self).admin@ && spec_balance(old(self)@, to@) >= amount && kv_has(
                old(self)@,
                to@,
            ) ==> r == Ok::<(), &'static str>(()) && final(self)@ == spec_debit(
                old(self)@,
                to@,
                amount,
            ),
            caller@ == old(self).admin@ && spec_balance(old(self)@, to@) >= amount && !kv_has(
                old(self)@,
                to@,
            ) ==> r == Ok::<(), &'static str>(()) && final(self)@ == old(self)@.push((to@, 0)),
    {
        if !str_eq_string(caller, &self.admin) {
            return Err("admin");
        }
        match self.balances.index_of(to.as_str()) {
            Some(i) => {
                let b = *self.balances.val_at(i);
                if b < amount {
                    return Err("insufficient");
                }
                self.balances.set_val_at(i, b - amount);
                Ok(())
            },
            None => {
                if amount > 0 {
                    return Err("insufficient");
                }
                self.balances.insert(to, 0);
                Ok(())
            },
        }
    }
}

} // verus!
