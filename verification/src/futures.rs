use vstd::prelude::*;
use crate::arith::{s_add, sat_add_u128};
use crate::idmap::IdMap;
use crate::kv::{kv_has, kv_idx, kv_val};
use crate::strutil::str_eq_string;

verus! {

/// A futures contract: its parties, size and price, posted margins, and its
/// settlement state.
pub struct FutureContract {
    pub buyer: String,
    pub seller: String,
    pub quantity: u128,
    pub price: u128,
    pub margin_buyer: u128,
    pub margin_seller: u128,
    pub settled: bool,
    pub settlement_price: Option<u128>,
}

/// The buyer's profit (negative: loss) of settling at `sp`.
pub open spec fn spec_pnl(c: FutureContract, sp: u128) -> int {
    (sp - c.price) * c.quantity
}

/// A futures desk under sequential contract identifiers.
pub struct Futures {
    pub contracts: IdMap<FutureContract>,
    pub next_id: u64,
}

impl Futures {
    pub open spec fn view(&self) -> Seq<(u64, FutureContract)> {
        self.contracts@
    }

    pub open spec fn wf(&self) -> bool {
        &&& self.contracts.wf()
        &&& forall|i: int| 0 <= i < self.contracts@.len() ==> (#[trigger] self.contracts@[i]).0
            <= self.next_id
    }

    pub fn new() -> (r: Self)
        ensures
            r.wf(),
            r@ == Seq::<(u64, FutureContract)>::empty(),
            r.next_id == 0,
    {
        Futures { contracts: IdMap::new(), next_id: 0 }
    }

    /// Opens a contract with no margin posted and returns its fresh
    /// identifier.
    pub fn create_contract(
        &mut self,
        buyer: String,
        seller: String,
        quantity: u128,
        price: u128,
    ) -> (r: u64)
        requires
            old(self).wf(),
            old(self).next_id < u64::MAX,
        ensures
            final(self).wf(),
            r == old(self).next_id + 1,
            final(self).next_id == r,
            final(self)@ == old(self)@.push(
                (
                    r,
                    (FutureContract {
                        buyer,
                        seller,
                        quantity,
                        price,
                        margin_buyer: 0,
                        margin_seller: 0,
                        settled: false,
                        settlement_price: None,
                    }),
                ),
            ),
    {
        self.next_id += 1;
        proof {
            assert(!kv_has(self.contracts@, self.next_id));
        }
        self.contracts.insert(
            self.next_id,
            FutureContract {
                buyer,
                seller,
                quantity,
                price,
                margin_buyer: 0,
                margin_seller: 0,
                settled: false,
                settlement_price: None,
            },
        );
        self.next_id
    }

    /// A party posts margin on an unsettled contract; anyone else is turned
    /// away.
    pub fn deposit_margin(&mut self, id: u64, caller: &str, amount: u128) -> (r: Result<
        (),
        &'static str,
    >)
        requires
            old(self).wf(),
        ensures
            final(self).wf(),
            final(self).next_id == old(self).next_id,
            !kv_has(old(self)@, id) ==> r == Err::<(), &'static str>("not found") && *final(self)
                == *old(self),
            kv_has(old(self)@, id) && kv_val(old(self)@, id).settled ==> r == Err::<
                (),
                &'static str,
            >("settled") && *final(self) == *old(self),
            kv_has(old(self)@, id) && !kv_val(old(self)@, id).settled && kv_val(
                old(self)@,
                id,
            ).buyer@ == caller@ ==> r == Ok::<(), &'static str>(()) && final(self)@ == old(self)@.update(
                kv_idx(old(self)@, id),
                (
                    id,
                    (FutureContract {
                        margin_buyer: s_add(
                            kv_val(old(self)@, id).margin_buyer as int,
                            amount as int,
                        ) as u128,
                        ..kv_val(old(self)@, id)
                    }),
                ),
            ),
            kv_has(old(self)@, id) && !kv_val(old(self)@, id).settled && kv_val(
                old(self)@,
                id,
            ).buyer@ != caller@ && kv_val(old(self)@, id).seller@ == caller@ ==> r == Ok::<
                (),
                &'static str,
            >(()) && final(self)@ == old(self)@.update(
                kv_idx(old(self)@, id),
                (
                    id,
                    (FutureContract {
                        margin_seller: s_add(
                            kv_val(old(self)@, id).margin_seller as int,
                            amount as int,
                        ) as u128,
                        ..kv_val(old(self)@, id)
                    }),
                ),
            ),
            kv_has(old(self)@, id) && !kv_val(old(self)@, id).settled && kv_val(
                old(self)@,
                id,
            ).buyer@ != caller@ && kv_val(old(self)@, id).seller@ != caller@ ==> r == Err::<
                (),
                &'static str,
            >("unauthorised") && *final(self) == *old(self),
    {
        match self.contracts.index_of(id) {
            Some(i) => {
                if self.contracts.val_at(i).settled {
                    return Err("settled");
                }
                let is_buyer = str_eq_string(caller, &self.contracts.val_at(i).buyer);
                let is_seller = str_eq_string(caller, &self.contracts.val_at(i).seller);
                if !is_buyer && !is_seller {
                    return Err("unauthorised");
                }
                let placeholder = FutureContract {
                    buyer: String::new(),
                    seller: String::new(),
                    quantity: 0,
                    price: 0,
                    margin_buyer: 0,
                    margin_seller: 0,
                    settled: false,
                    settlement_price: None,
                };
                let c = self.contracts.replace_val_at(i, placeholder);
                if is_buyer {
                    let margin = sat_add_u128(c.margin_buyer, amount);
                    self.contracts.set_val_at(i, FutureContract { margin_buyer: margin, ..c });
                    proof {
                        assert(self@ =~= old(self)@.update(
                            i as int,
                            (id, FutureContract { margin_buyer: self@[i as int].1.margin_buyer, ..c }),
                        ));
                    }
                } else {
                    let margin = sat_add_u128(c.margin_seller, amount);
                    self.contracts.set_val_at(i, FutureContract { margin_seller: margin, ..c });
                    proof {
                        assert(self@ =~= old(self)@.update(
                            i as int,
                            (id, FutureContract { margin_seller: self@[i as int].1.margin_seller, ..c }),
                        ));
                    }
                }
                Ok(())
            },
            None => Err("not found"),
        }
    }

    /// A party settles the contract at `settlement_price`; the buyer's profit
    /// or loss is returned. Prices or sizes beyond the signed domain fail.
    pub fn settle(&mut self, id: u64, caller: &str, settlement_price: u128) -> (r: Result<
        i128,
        &'static str,
    >)
        requires
            old(self).wf(),
            kv_has(old(self)@, id) && settlement_price <= i128::MAX && kv_val(old(self)@, id).price
                <= i128::MAX && kv_val(old(self)@, id).quantity <= i128::MAX
                ==> i128::MIN <= spec_pnl(kv_val(old(self)@, id), settlement_price) <= i128::MAX,
        ensures
            final(self).wf(),
            final(self).next_id == old(self).next_id,
            !kv_has(old(self)@, id) ==> r == Err::<i128, &'static str>("not found") && *final(self)
                == *old(self),
            kv_has(old(self)@, id) && kv_val(old(self)@, id).buyer@ != caller@ && kv_val(
                old(self)@,
                id,
            ).seller@ != caller@ ==> r == Err::<i128, &'static str>("unauthorised") && *final(self)
                == *old(self),
            kv_has(old(self)@, id) && (kv_val(old(self)@, id).buyer@ == caller@ || kv_val(
                old(self)@,
                id,
            ).seller@ == caller@) && kv_val(old(self)@, id).settled ==> r == Err::<
                i128,
                &'static str,
            >("settled") && *final(self) == *old(self),
            kv_has(old(self)@, id) && (kv_val(old(self)@, id).buyer@ == caller@ || kv_val(
                old(self)@,
                id,
            ).seller@ == caller@) && !kv_val(old(self)@, id).settled && (settlement_price
                > i128::MAX || kv_val(old(self)@, id).price > i128::MAX || kv_val(
                old(self)@,
                id,
            ).quantity > i128::MAX) ==> r == Err::<i128, &'static str>("overflow") && *final(self)
                == *old(self),
            kv_has(old(self)@, id) && (kv_val(old(self)@, id).buyer@ == caller@ || kv_val(
                old(self)@,
                id,
            ).seller@ == caller@) && !kv_val(old(self)@, id).settled && settlement_price
                <= i128::MAX && kv_val(old(self)@, id).price <= i128::MAX && kv_val(
                old(self)@,
                id,
            ).quantity <= i128::MAX ==> r == Ok::<i128, &'static str>(
                spec_pnl(kv_val(old(self)@, id), settlement_price) as i128,
            ) && final(self)@ == old(self)@.update(
                kv_idx(old(self)@, id),
                (
                    id,
                    (FutureContract {
                        settled: true,
                        settlement_price: Some(settlement_price),
                        ..kv_val(old(self)@, id)
                    }),
                ),
            ),
    {
        match self.contracts.index_of(id) {
            Some(i) => {
                let is_buyer = str_eq_string(caller, &self.contracts.val_at(i).buyer);
                let is_seller = str_eq_string(caller, &self.contracts.val_at(i).seller);
                if !is_buyer && !is_seller {
                    return Err("unauthorised");
                }
                if self.contracts.val_at(i).settled {
                    return Err("settled");
                }
                let max_u: u128 = i128::MAX as u128;
                if settlement_price > max_u || self.contracts.val_at(i).price > max_u
                    || self.contracts.val_at(i).quantity > max_u {
                    return Err("overflow");
                }
                let placeholder = FutureContract {
                    buyer: String::new(),
                    seller: String::new(),
                    quantity: 0,
                    price: 0,
                    margin_buyer: 0,
                    margin_seller: 0,
                    settled: false,
                    settlement_price: None,
                };
                let c = self.contracts.replace_val_at(i, placeholder);
                let sp_i: i128 = settlement_price as i128;
                let price_i: i128 = c.price as i128;
                let quantity_i: i128 = c.quantity as i128;
                let pnl: i128 = (sp_i - price_i) * quantity_i;
                self.contracts.set_val_at(
                    i,
                    FutureContract {
                        settled: true,
                        settlement_price: Some(settlement_price),
                        ..c
                    },
                );
                proof {
                    assert(self@ =~= old(self)@.update(
                        i as int,
                        (
                            id,
                            FutureContract {
                                settled: true,
                                settlement_price: Some(settlement_price),
                                ..c
                            },
                        ),
                    ));
                }
                Ok(pnl)
            },
            None => Err("not found"),
        }
    }
}

} // verus!
