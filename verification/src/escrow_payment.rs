use vstd::prelude::*;
use crate::strutil::str_eq_string;

verus! {

/// An escrowed payment released or refunded by a designated arbiter, once.
pub struct EscrowPayment {
    pub payer: String,
    pub payee: String,
    pub arbiter: String,
    pub balance: u128,
    pub released: bool,
}

impl EscrowPayment {
    pub fn new(payer: String, payee: String, arbiter: String, deposit: u128) -> (r: Self)
        ensures
            r.payer == payer,
            r.payee == payee,
            r.arbiter == arbiter,
            r.balance == deposit,
            !r.released,
    {
        EscrowPayment { payer, payee, arbiter, balance: deposit, released: false }
    }

    /// The arbiter releases the balance to the payee, once.
    pub fn release(&mut self, caller: &str) -> (r: Result<u128, &'static str>)
        ensures
            caller@ != old(self).arbiter@ ==> r == Err::<u128, &'static str>("arbiter") && *final(self) == *old(self),
            caller@ == old(self).arbiter@ && old(self).released ==> r == Err::<u128, &'static str>(
                "done",
            ) && *final(self) == *old(self),
            caller@ == old(self).arbiter@ && !old(self).released ==> r == Ok::<u128, &'static str>(
                old(self).balance,
            ) && *final(self) == (EscrowPayment { released: true, ..*old(self) }),
    {
        if !str_eq_string(caller, &self.arbiter) {
            return Err("arbiter");
        }
        if self.released {
            return Err("done");
        }
        self.released = true;
        Ok(self.balance)
    }

    /// The arbiter refunds the payer, once; the returned zero marks a refund.
    pub fn refund(&mut self, caller: &str) -> (r: Result<u128, &'static str>)
        ensures
            caller@ != old(self).arbiter@ ==> r == Err::<u128, &'static str>("arbiter") && *final(self) == *old(self),
            caller@ == old(self).arbiter@ && old(self).released ==> r == Err::<u128, &'static str>(
                "done",
            ) && *final(self) == *old(self),
            caller@ == old(self).arbiter@ && !old(self).released ==> r == Ok::<u128, &'static str>(
                0,
            ) && *final(self) == (EscrowPayment { released: true, ..*old(self) }),
    {
        if !str_eq_string(caller, &self.arbiter) {
            return Err("arbiter");
        }
        if self.released {
            return Err("done");
        }
        self.released = true;
        Ok(0)
    }
}

} // verus!
