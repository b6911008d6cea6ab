use vstd::prelude::*;
use crate::arith::s_sub;
use crate::arith::sat_sub_u128;
use crate::idmap::IdMap;
use crate::kv::{kv_has, kv_idx, kv_val};
use crate::strutil::str_eq_string;

verus! {

/// Whether an option pays when the price rises (call) or falls (put).
#[derive(Clone, Copy, PartialEq, Eq, Structural)]
pub enum OptionType {
    Call,
    Put,
}

/// A listed option: its writer, holder once sold, strike, premium, expiry,
/// kind, and whether it was exercised.
pub struct OptionContract {
    pub writer: String,
    pub holder: Option<String>,
    pub strike_price: u128,
    pub premium: u128,
    pub expiry: u64,
    pub option_type: OptionType,
    pub exercised: bool,
}

/// The payoff of an option at spot price `price`: what the strike leaves over,
/// in the direction of the option's kind, floored at zero.
pub open spec fn spec_payoff(kind: OptionType, strike: u128, price: u128) -> int {
    match kind {
        OptionType::Call => s_sub(price as int, strike as int),
        OptionType::Put => s_sub(strike as int, price as int),
    }
}

/// An options board under sequential listing identifiers.
pub struct Options {
    pub listings: IdMap<OptionContract>,
    pub next_id: u64,
}

impl Options {
    pub open spec fn view(&self) -> Seq<(u64, OptionContract)> {
        self.listings@
    }

    pub open spec fn wf(&self) -> bool {
        &&& self.listings.wf()
        &&& forall|i: int| 0 <= i < self.listings@.len() ==> (#[trigger] self.listings@[i]).0
            <= self.next_id
    }

    pub fn new() -> (r: Self)
        ensures
            r.wf(),
            r@ == Seq::<(u64, OptionContract)>::empty(),
            r.next_id == 0,
    {
        Options { listings: IdMap::new(), next_id: 0 }
    }

    /// Lists an option for sale and returns its fresh identifier.
    pub fn list_option(
        &mut self,
        writer: String,
        strike_price: u128,
        premium: u128,
        expiry: u64,
        option_type: OptionType,
    ) -> (r: u64)
        requires
            old(self).wf(),
            old(self).next_id < u64::MAX,
        ensures
            final(self).wf(),
            r == old(self).next_id + 1,
            final(self).next_id == r,
            final(self)@ == old(self)@.push(
                (
                    r,
                    (OptionContract {
                        writer,
                        holder: None,
                        strike_price,
                        premium,
                        expiry,
                        option_type,
                        exercised: false,
                    }),
                ),
            ),
    {
        self.next_id += 1;
        proof {
            assert(!kv_has(self.listings@, self.next_id));
        }
        self.listings.insert(
            self.next_id,
            OptionContract {
                writer,
                holder: None,
                strike_price,
                premium,
                expiry,
                option_type,
                exercised: false,
            },
        );
        self.next_id
    }

    /// A buyer takes an unsold listing by paying at least the premium.
    pub fn purchase(&mut self, id: u64, buyer: String, payment: u128) -> (r: Result<
        (),
        &'static str,
    >)
        requires
            old(self).wf(),
        ensures
            final(self).wf(),
            final(self).next_id == old(self).next_id,
            !kv_has(old(self)@, id) ==> r == Err::<(), &'static str>("not found") && *final(self)
                == *old(self),
            kv_has(old(self)@, id) && kv_val(old(self)@, id).holder is Some ==> r == Err::<
                (),
                &'static str,
            >("sold") && *final(self) == *old(self),
            kv_has(old(self)@, id) && kv_val(old(self)@, id).holder is None && payment < kv_val(
                old(self)@,
                id,
            ).premium ==> r == Err::<(), &'static str>("insufficient premium") && *final(self)
                == *old(self),
            kv_has(old(self)@, id) && kv_val(old(self)@, id).holder is None && payment >= kv_val(
                old(self)@,
                id,
            ).premium ==> r == Ok::<(), &'static str>(()) && final(self)@ == old(self)@.update(
                kv_idx(old(self)@, id),
                (
                    id,
                    (OptionContract {
                        writer: kv_val(old(self)@, id).writer,
                        holder: Some(buyer),
                        strike_price: kv_val(old(self)@, id).strike_price,
                        premium: kv_val(old(self)@, id).premium,
                        expiry: kv_val(old(self)@, id).expiry,
                        option_type: kv_val(old(self)@, id).option_type,
                        exercised: kv_val(old(self)@, id).exercised,
                    }),
                ),
            ),
    {
        match self.listings.index_of(id) {
            Some(i) => {
                let listing = self.listings.val_at(i);
                if listing.holder.is_some() {
                    return Err("sold");
                }
                if payment < listing.premium {
                    return Err("insufficient premium");
                }
                let updated = OptionContract {
                    writer: listing.writer.clone(),
                    holder: Some(buyer),
                    strike_price: listing.strike_price,
                    premium: listing.premium,
                    expiry: listing.expiry,
                    option_type: listing.option_type,
                    exercised: listing.exercised,
                };
                self.listings.set_val_at(i, updated);
                Ok(())
            },
            None => Err("not found"),
        }
    }

    /// The holder exercises an unexpired, unexercised option at spot price
    /// `price` and is owed the payoff.
    pub fn exercise(&mut self, id: u64, caller: &str, price: u128, now: u64) -> (r: Result<
        u128,
        &'static str,
    >)
        requires
            old(self).wf(),
        ensures
            final(self).wf(),
            final(self).next_id == old(self).next_id,
            !kv_has(old(self)@, id) ==> r == Err::<u128, &'static str>("not found") && *final(self)
                == *old(self),
            kv_has(old(self)@, id) && kv_val(old(self)@, id).holder is None ==> r == Err::<
                u128,
                &'static str,
            >("not sold") && *final(self) == *old(self),
            kv_has(old(self)@, id) && kv_val(old(self)@, id).holder is Some && kv_val(
                old(self)@,
                id,
            ).holder->0@ != caller@ ==> r == Err::<u128, &'static str>("forbidden") && *final(self)
                == *old(self),
            kv_has(old(self)@, id) && kv_val(old(self)@, id).holder is Some && kv_val(
                old(self)@,
                id,
            ).holder->0@ == caller@ && now > kv_val(old(self)@, id).expiry ==> r == Err::<
                u128,
                &'static str,
            >("expired") && *final(self) == *old(self),
            kv_has(old(self)@, id) && kv_val(old(self)@, id).holder is Some && kv_val(
                old(self)@,
                id,
            ).holder->0@ == caller@ && now <= kv_val(old(self)@, id).expiry && kv_val(
                old(self)@,
                id,
            ).exercised ==> r == Err::<u128, &'static str>("exercised") && *final(self) == *old(self),
            kv_has(old(self)@, id) && kv_val(old(self)@, id).holder is Some && kv_val(
                old(self)@,
                id,
            ).holder->0@ == caller@ && now <= kv_val(old(self)@, id).expiry && !kv_val(
                old(self)@,
                id,
            ).exercised ==> r == Ok::<u128, &'static str>(
                spec_payoff(
                    kv_val(old(self)@, id).option_type,
                    kv_val(old(self)@, id).strike_price,
                    price,
                ) as u128,
            ) && final(self)@ == old(self)@.update(
                kv_idx(old(self)@, id),
                (
                    id,
                    (OptionContract {
                        writer: kv_val(old(self)@, id).writer,
                        holder: kv_val(old(self)@, id).holder,
                        strike_price: kv_val(old(self)@, id).strike_price,
                        premium: kv_val(old(self)@, id).premium,
                        expiry: kv_val(old(self)@, id).expiry,
                        option_type: kv_val(old(self)@, id).option_type,
                        exercised: true,
                    }),
                ),
            ),
    {
        match self.listings.index_of(id) {
            Some(i) => {
                let listing = self.listings.val_at(i);
                let authorised: bool = match &listing.holder {
                    Some(h) => str_eq_string(caller, h),
                    None => {
                        return Err("not sold");
                    },
                };
                if !authorised {
                    return Err("forbidden");
                }
                if now > listing.expiry {
                    return Err("expired");
                }
                if listing.exercised {
                    return Err("exercised");
                }
                let payoff: u128 = match listing.option_type {
                    OptionType::Call => sat_sub_u128(price, listing.strike_price),
                    OptionType::Put => sat_sub_u128(listing.strike_price, price),
                };
                let updated = OptionContract {
                    writer: listing.writer.clone(),
                    holder: match &listing.holder {
                        Some(h) => Some(h.clone()),
                        None => None,
                    },
                    strike_price: listing.strike_price,
                    premium: listing.premium,
                    expiry: listing.expiry,
                    option_type: listing.option_type,
                    exercised: true,
                };
                self.listings.set_val_at(i, updated);
                Ok(payoff)
            },
            None => Err("not found"),
        }
    }
}

} // verus!
