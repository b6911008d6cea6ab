use vstd::prelude::*;
use crate::arith::{s_add, s_mul, sat_add_u128, sat_mul_u128};
use crate::kv::{kv_has, kv_idx, kv_val};
use crate::smap::StrMap;
use crate::strutil::str_eq_string;

verus! {

/// A bond position: outstanding principal, interest accrued on it, and
/// whether it was already converted to equity.
#[derive(Clone, Copy)]
pub struct BondPosition {
    pub principal: u128,
    pub accrued_interest: u128,
    pub converted: bool,
}

/// The equity value a position converts into at the given rate.
pub open spec fn spec_conversion_value(p: BondPosition, rate: u128) -> int {
    s_mul(s_add(p.principal as int, p.accrued_interest as int), rate as int)
}

/// A convertible bond: the issuer issues principal, interest accrues per
/// position, and at maturity each holder converts once at a fixed rate.
pub struct ConvertibleBond {
    pub issuer: String,
    pub conversion_rate: u128,
    pub maturity: u64,
    pub positions: StrMap<BondPosition>,
}

impl ConvertibleBond {
    pub open spec fn view(&self) -> Seq<(Seq<char>, BondPosition)> {
        self.positions@
    }

    pub open spec fn wf(&self) -> bool {
        self.positions.wf()
    }

    pub fn new(issuer: String, conversion_rate: u128, maturity: u64) -> (r: Self)
        ensures
            r.wf(),
            r.issuer == issuer,
            r.conversion_rate == conversion_rate,
            r.maturity == maturity,
            r@ == Seq::<(Seq<char>, BondPosition)>::empty(),
    {
        ConvertibleBond { issuer, conversion_rate, maturity, positions: StrMap::new() }
    }

    /// The issuer grows a holder's principal, creating the position if
    /// needed.
    pub fn issue(&mut self, caller: &str, holder: String, principal: u128) -> (r: Result<
        (),
        &'static str,
    >)
        requires
            old(self).wf(),
        ensures
            final(self).wf(),
            caller@ != old(self).issuer@ ==> r == Err::<(), &'static str>("only issuer") && *final(self) == *old(self),
            caller@ == old(self).issuer@ && kv_has(old(self)@, holder@) ==> r == Ok::<
                (),
                &'static str,
            >(()) && final(self)@ == old(self)@.update(
                kv_idx(old(self)@, holder@),
                (
                    holder@,
                    (BondPosition {
                        principal: s_add(
                            kv_val(old(self)@, holder@).principal as int,
                            principal as int,
                        ) as u128,
                        accrued_interest: kv_val(old(self)@, holder@).accrued_interest,
                        converted: kv_val(old(self)@, holder@).converted,
                    }),
                ),
            ),
            caller@ == old(self).issuer@ && !kv_has(old(self)@, holder@) ==> r == Ok::<
                (),
                &'static str,
            >(()) && final(self)@ == old(self)@.push(
                (holder@, (BondPosition { principal, accrued_interest: 0, converted: false })),
            ),
    {
        if !str_eq_string(caller, &self.issuer) {
            return Err("only issuer");
        }
        match self.positions.index_of(holder.as_str()) {
            Some(i) => {
                let p = *self.positions.val_at(i);
                self.positions.set_val_at(
                    i,
                    BondPosition { principal: sat_add_u128(p.principal, principal), ..p },
                );
            },
            None => {
                self.positions.insert(
                    holder,
                    BondPosition { principal, accrued_interest: 0, converted: false },
                );
            },
        }
        Ok(())
    }

    /// Accrues interest on an unconverted position.
    pub fn accrue_interest(&mut self, holder: &str, interest: u128) -> (r: Result<
        (),
        &'static str,
    >)
        requires
            old(self).wf(),
        ensures
            final(self).wf(),
            !kv_has(old(self)@, holder@) ==> r == Err::<(), &'static str>("no position") && *final(self) == *old(self),
            kv_has(old(self)@, holder@) && kv_val(old(self)@, holder@).converted ==> r == Err::<
                (),
                &'static str,
            >("already converted") && *final(self) == *old(self),
            kv_has(old(self)@, holder@) && !kv_val(old(self)@, holder@).converted ==> r == Ok::<
                (),
                &'static str,
            >(()) && final(self)@ == old(self)@.update(
                kv_idx(old(self)@, holder@),
                (
                    holder@,
                    (BondPosition {
                        principal: kv_val(old(self)@, holder@).principal,
                        accrued_interest: s_add(
                            kv_val(old(self)@, holder@).accrued_interest as int,
                            interest as int,
                        ) as u128,
                        converted: false,
                    }),
                ),
            ),
    {
        match self.positions.index_of(holder) {
            Some(i) => {
                let p = *self.positions.val_at(i);
                if p.converted {
                    return Err("already converted");
                }
                self.positions.set_val_at(
                    i,
                    BondPosition {
                        accrued_interest: sat_add_u128(p.accrued_interest, interest),
                        ..p
                    },
                );
                Ok(())
            },
            None => Err("no position"),
        }
    }

    /// At or after maturity, converts a position once: principal plus accrued
    /// interest, times the conversion rate, is returned as equity value.
    pub fn convert(&mut self, holder: &str, now: u64) -> (r: Result<u128, &'static str>)
        requires
            old(self).wf(),
        ensures
            final(self).wf(),
            !kv_has(old(self)@, holder@) ==> r == Err::<u128, &'static str>("no position")
                && *final(self) == *old(self),
            kv_has(old(self)@, holder@) && now < old(self).maturity ==> r == Err::<
                u128,
                &'static str,
            >("not matured") && *final(self) == *old(self),
            kv_has(old(self)@, holder@) && now >= old(self).maturity && kv_val(
                old(self)@,
                holder@,
            ).converted ==> r == Err::<u128, &'static str>("already converted") && *final(self)
                == *old(self),
            kv_has(old(self)@, holder@) && now >= old(self).maturity && !kv_val(
                old(self)@,
                holder@,
            ).converted ==> r == Ok::<u128, &'static str>(
                spec_conversion_value(kv_val(old(self)@, holder@), old(self).conversion_rate) as u128,
            ) && final(self)@ == old(self)@.update(
                kv_idx(old(self)@, holder@),
                (
                    holder@,
                    (BondPosition {
                        principal: kv_val(old(self)@, holder@).principal,
                        accrued_interest: kv_val(old(self)@, holder@).accrued_interest,
                        converted: true,
                    }),
                ),
            ),
    {
        match self.positions.index_of(holder) {
            Some(i) => {
                let p = *self.positions.val_at(i);
                if now < self.maturity {
                    return Err("not matured");
                }
                if p.converted {
                    return Err("already converted");
                }
                self.positions.set_val_at(i, BondPosition { converted: true, ..p });
                let total_value = sat_add_u128(p.principal, p.accrued_interest);
                Ok(sat_mul_u128(total_value, self.conversion_rate))
            },
            None => Err("no position"),
        }
    }

    /// Reads a holder's position.
    pub fn balance_of(&self, holder: &str) -> (r: Option<&BondPosition>)
        requires
            self.wf(),
        ensures
            match r {
                Some(p) => kv_has(self@, holder@) && *p == kv_val(self@, holder@),
                None => !kv_has(self@, holder@),
            },
    {
        self.positions.get(holder)
    }
}

} // verus!
