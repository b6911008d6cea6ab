use vstd::prelude::*;
use crate::idmap::IdMap;
use crate::kv::{kv_has, kv_idx, kv_val};

verus! {

/// A submitted invoice: its seller, face amount, due date, and factoring
/// state.
pub struct Invoice {
    pub seller: String,
    pub amount: u128,
    pub due_date: u64,
    pub purchased: bool,
    pub paid: bool,
    pub investor: Option<String>,
}

/// An invoice-factoring desk under sequential invoice identifiers.
pub struct InvoiceFactoring {
    pub invoices: IdMap<Invoice>,
    pub next_id: u64,
}

impl InvoiceFactoring {
    pub closed spec fn view(&self) -> Seq<(u64, Invoice)> {
        self.invoices@
    }

    pub closed spec fn wf(&self) -> bool {
        &&& self.invoices.wf()
        &&& forall|i: int| 0 <= i < self.invoices@.len() ==> (#[trigger] self.invoices@[i]).0
            <= self.next_id
    }

    pub fn new() -> (r: Self)
        ensures
            r.wf(),
            r@ == Seq::<(u64, Invoice)>::empty(),
            r.next_id == 0,
    {
        InvoiceFactoring { invoices: IdMap::new(), next_id: 0 }
    }

    /// Registers an invoice, not yet purchased nor paid, and returns its
    /// fresh identifier.
    pub fn submit_invoice(&mut self, seller: String, amount: u128, due_date: u64) -> (r: u64)
        requires
            old(self).wf(),
            old(self).next_id < u64::MAX,
        ensures
            final(self).wf(),
            r == old(self).next_id + 1,
            final(self).next_id == r,
            final(self)@ == old(self)@.push(
                (
                    r,
                    (Invoice {
                        seller,
                        amount,
                        due_date,
                        purchased: false,
                        paid: false,
                        investor: None,
                    }),
                ),
            ),
    {
        self.next_id += 1;
        proof {
            assert(!kv_has(self.invoices@, self.next_id));
        }
        self.invoices.insert(
            self.next_id,
            Invoice { seller, amount, due_date, purchased: false, paid: false, investor: None },
        );
        self.next_id
    }

    /// An investor buys the invoice at an advance no higher than its face
    /// amount; the advance is returned. An invoice already purchased, or too
    /// high an advance, fails and changes nothing.
    pub fn purchase(&mut self, id: u64, investor: String, advance: u128) -> (r: Result<
        u128,
        &'static str,
    >)
        requires
            old(self).wf(),
        ensures
            final(self).wf(),
            final(self).next_id == old(self).next_id,
            !kv_has(old(self)@, id) ==> r == Err::<u128, &'static str>("not found") && final(self)@
                == old(self)@,
            kv_has(old(self)@, id) && kv_val(old(self)@, id).purchased ==> r == Err::<
                u128,
                &'static str,
            >("already purchased") && final(self)@ == old(self)@,
            kv_has(old(self)@, id) && !kv_val(old(self)@, id).purchased && advance > kv_val(
                old(self)@,
                id,
            ).amount ==> r == Err::<u128, &'static str>("advance too high") && final(self)@
                == old(self)@,
            kv_has(old(self)@, id) && !kv_val(old(self)@, id).purchased && advance <= kv_val(
                old(self)@,
                id,
            ).amount ==> {
                &&& r == Ok::<u128, &'static str>(advance)
                &&& final(self)@.len() == old(self)@.len()
                &&& final(self)@ == old(self)@.update(
                    kv_idx(old(self)@, id),
                    (
                        id,
                        (Invoice {
                            seller: kv_val(old(self)@, id).seller,
                            amount: kv_val(old(self)@, id).amount,
                            due_date: kv_val(old(self)@, id).due_date,
                            purchased: true,
                            paid: kv_val(old(self)@, id).paid,
                            investor: Some(investor),
                        }),
                    ),
                )
            },
    {
        match self.invoices.index_of(id) {
            Some(i) => {
                let inv = self.invoices.val_at(i);
                if inv.purchased {
                    return Err("already purchased");
                }
                if advance > inv.amount {
                    return Err("advance too high");
                }
                let inv2 = Invoice {
                    seller: inv.seller.clone(),
                    amount: inv.amount,
                    due_date: inv.due_date,
                    purchased: true,
                    paid: inv.paid,
                    investor: Some(investor),
                };
                self.invoices.set_val_at(i, inv2);
                Ok(advance)
            },
            None => Err("not found"),
        }
    }

    /// Marks the invoice as paid by its debtor.
    pub fn mark_paid(&mut self, id: u64) -> (r: Result<(), &'static str>)
        requires
            old(self).wf(),
        ensures
            final(self).wf(),
            final(self).next_id == old(self).next_id,
            !kv_has(old(self)@, id) ==> r == Err::<(), &'static str>("not found") && final(self)@
                == old(self)@,
            kv_has(old(self)@, id) ==> r == Ok::<(), &'static str>(()) && final(self)@ == old(self)@.update(
                kv_idx(old(self)@, id),
                (
                    id,
                    (Invoice {
                        seller: kv_val(old(self)@, id).seller,
                        amount: kv_val(old(self)@, id).amount,
                        due_date: kv_val(old(self)@, id).due_date,
                        purchased: kv_val(old(self)@, id).purchased,
                        paid: true,
                        investor: kv_val(old(self)@, id).investor,
                    }),
                ),
            ),
    {
        match self.invoices.index_of(id) {
            Some(i) => {
                let inv = self.invoices.val_at(i);
                let inv2 = Invoice {
                    seller: inv.seller.clone(),
                    amount: inv.amount,
                    due_date: inv.due_date,
                    purchased: inv.purchased,
                    paid: true,
                    investor: match &inv.investor {
                        Some(s) => Some(s.clone()),
                        None => None,
                    },
                };
                self.invoices.set_val_at(i, inv2);
                Ok(())
            },
            None => Err("not found"),
        }
    }

    /// Releases the face amount to the investor once the invoice is both
    /// purchased and paid, clearing its factoring state.
    pub fn release_payment(&mut self, id: u64) -> (r: Result<u128, &'static str>)
        requires
            old(self).wf(),
        ensures
            final(self).wf(),
            final(self).next_id == old(self).next_id,
            !kv_has(old(self)@, id) ==> r == Err::<u128, &'static str>("not found") && final(self)@
                == old(self)@,
            kv_has(old(self)@, id) && !(kv_val(old(self)@, id).paid && kv_val(
                old(self)@,
                id,
            ).purchased) ==> r == Err::<u128, &'static str>("not ready") && final(self)@ == old(self)@,
            kv_has(old(self)@, id) && kv_val(old(self)@, id).paid && kv_val(
                old(self)@,
                id,
            ).purchased ==> r == Ok::<u128, &'static str>(kv_val(old(self)@, id).amount) && final(self)@ == old(self)@.update(
                kv_idx(old(self)@, id),
                (
                    id,
                    (Invoice {
                        seller: kv_val(old(self)@, id).seller,
                        amount: kv_val(old(self)@, id).amount,
                        due_date: kv_val(old(self)@, id).due_date,
                        purchased: false,
                        paid: false,
                        investor: None,
                    }),
                ),
            ),
    {
        match self.invoices.index_of(id) {
            Some(i) => {
                let inv = self.invoices.val_at(i);
                if !inv.paid || !inv.purchased {
                    return Err("not ready");
                }
                let amount = inv.amount;
                let inv2 = Invoice {
                    seller: inv.seller.clone(),
                    amount: inv.amount,
                    due_date: inv.due_date,
                    purchased: false,
                    paid: false,
                    investor: None,
                };
                self.invoices.set_val_at(i, inv2);
                Ok(amount)
            },
            None => Err("not found"),
        }
    }
}

} // verus!
