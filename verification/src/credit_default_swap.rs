use vstd::prelude::*;
use crate::strutil::str_eq_string;

verus! {

/// A credit-default swap between a protection buyer and seller: the buyer
/// pays periodic premiums until a default is triggered, which owes the buyer
/// the notional; the seller then confirms the payout.
pub struct CreditDefaultSwap {
    pub buyer: String,
    pub seller: String,
    pub notional: u128,
    pub premium: u128,
    pub premiums_paid: u64,
    pub default_triggered: bool,
    pub payout_confirmed: bool,
}

impl CreditDefaultSwap {
    pub fn new(buyer: String, seller: String, notional: u128, premium: u128) -> (r: Self)
        ensures
            r.buyer == buyer,
            r.seller == seller,
            r.notional == notional,
            r.premium == premium,
            r.premiums_paid == 0,
            !r.default_triggered,
            !r.payout_confirmed,
    {
        CreditDefaultSwap {
            buyer,
            seller,
            notional,
            premium,
            premiums_paid: 0,
            default_triggered: false,
            payout_confirmed: false,
        }
    }

    /// The buyer pays one premium; the owed premium amount is returned.
    pub fn pay_premium(&mut self, caller: &str) -> (r: Result<u128, &'static str>)
        requires
            old(self).premiums_paid < u64::MAX,
        ensures
            caller@ != old(self).buyer@ ==> r == Err::<u128, &'static str>("only buyer") && *final(self) == *old(self),
            caller@ == old(self).buyer@ && old(self).default_triggered ==> r == Err::<
                u128,
                &'static str,
            >("default triggered") && *final(self) == *old(self),
            caller@ == old(self).buyer@ && !old(self).default_triggered ==> r == Ok::<
                u128,
                &'static str,
            >(old(self).premium) && *final(self) == (CreditDefaultSwap {
                premiums_paid: (old(self).premiums_paid + 1) as u64,
                ..*old(self)
            }),
    {
        if !str_eq_string(caller, &self.buyer) {
            return Err("only buyer");
        }
        if self.default_triggered {
            return Err("default triggered");
        }
        self.premiums_paid += 1;
        Ok(self.premium)
    }

    /// The buyer triggers the default event, once; the notional owed to the
    /// buyer is returned.
    pub fn trigger_default(&mut self, caller: &str) -> (r: Result<u128, &'static str>)
        ensures
            caller@ != old(self).buyer@ ==> r == Err::<u128, &'static str>("only buyer") && *final(self) == *old(self),
            caller@ == old(self).buyer@ && old(self).default_triggered ==> r == Err::<
                u128,
                &'static str,
            >("already triggered") && *final(self) == *old(self),
            caller@ == old(self).buyer@ && !old(self).default_triggered ==> r == Ok::<
                u128,
                &'static str,
            >(old(self).notional) && *final(self) == (CreditDefaultSwap {
                default_triggered: true,
                ..*old(self)
            }),
    {
        if !str_eq_string(caller, &self.buyer) {
            return Err("only buyer");
        }
        if self.default_triggered {
            return Err("already triggered");
        }
        self.default_triggered = true;
        Ok(self.notional)
    }

    /// The seller confirms the payout after a triggered default, once.
    pub fn confirm_payout(&mut self, caller: &str) -> (r: Result<(), &'static str>)
        ensures
            caller@ != old(self).seller@ ==> r == Err::<(), &'static str>("only seller") && *final(self) == *old(self),
            caller@ == old(self).seller@ && !old(self).default_triggered ==> r == Err::<
                (),
                &'static str,
            >("no default") && *final(self) == *old(self),
            caller@ == old(self).seller@ && old(self).default_triggered && old(self).payout_confirmed ==> r == Err::<(), &'static str>("already confirmed") && *final(self)
                == *old(self),
            caller@ == old(self).seller@ && old(self).default_triggered && !old(self).payout_confirmed ==> r == Ok::<(), &'static str>(()) && *final(self)
                == (CreditDefaultSwap { payout_confirmed: true, ..*old(self) }),
    {
        if !str_eq_string(caller, &self.seller) {
            return Err("only seller");
        }
        if !self.default_triggered {
            return Err("no default");
        }
        if self.payout_confirmed {
            return Err("already confirmed");
        }
        self.payout_confirmed = true;
        Ok(())
    }
}

} // verus!
