use vstd::prelude::*;
use crate::idmap::IdMap;
use crate::kv::{kv_has, kv_idx, kv_val};

verus! {

/// A listed model: its seller, asking price, content address and sale state.
pub struct Model {
    pub seller: String,
    pub price: u128,
    pub uri: String,
    pub sold: bool,
}

/// A marketplace of models under sequential listing identifiers.
pub struct AiModelMarket {
    pub models: IdMap<Model>,
    pub next_id: u64,
}

impl AiModelMarket {
    pub open spec fn view(&self) -> Seq<(u64, Model)> {
        self.models@
    }

    /// Identifiers never exceed the listing counter, so a fresh counter value
    /// is a fresh key.
    pub open spec fn wf(&self) -> bool {
        &&& self.models.wf()
        &&& forall|i: int| 0 <= i < self.models@.len() ==> (#[trigger] self.models@[i]).0
            <= self.next_id
    }

    pub fn new() -> (r: Self)
        ensures
            r.wf(),
            r@ == Seq::<(u64, Model)>::empty(),
            r.next_id == 0,
    {
        AiModelMarket { models: IdMap::new(), next_id: 0 }
    }

    /// Lists a model for sale and returns its fresh identifier.
    pub fn list_model(&mut self, seller: String, price: u128, uri: String) -> (r: u64)
        requires
            old(self).wf(),
            old(self).next_id < u64::MAX,
        ensures
            final(self).wf(),
            r == old(self).next_id + 1,
            final(self).next_id == r,
            final(self)@ == old(self)@.push(
                (r, (Model { seller, price, uri, sold: false })),
            ),
    {
        self.next_id += 1;
        let m = Model { seller, price, uri, sold: false };
        proof {
            assert(!kv_has(self.models@, self.next_id));
        }
        self.models.insert(self.next_id, m);
        self.next_id
    }

    /// Marks a listing sold. Fails on an unknown listing, one already sold,
    /// or a payment below the asking price; failure leaves it untouched.
    pub fn purchase(&mut self, id: u64, paid: u128) -> (r: Result<(), &'static str>)
        requires
            old(self).wf(),
        ensures
            final(self).wf(),
            final(self).next_id == old(self).next_id,
            !kv_has(old(self)@, id) ==> r == Err::<(), &'static str>("not found") && final(self)@
                == old(self)@,
            kv_has(old(self)@, id) && kv_val(old(self)@, id).sold ==> r == Err::<(), &'static str>(
                "sold",
            ) && final(self)@ == old(self)@,
            kv_has(old(self)@, id) && !kv_val(old(self)@, id).sold && paid < kv_val(
                old(self)@,
                id,
            ).price ==> r == Err::<(), &'static str>("price") && final(self)@ == old(self)@,
            kv_has(old(self)@, id) && !kv_val(old(self)@, id).sold && paid >= kv_val(
                old(self)@,
                id,
            ).price ==> r == Ok::<(), &'static str>(()) && final(self)@ == old(self)@.update(
                kv_idx(old(self)@, id),
                (
                    id,
                    (Model {
                        seller: kv_val(old(self)@, id).seller,
                        price: kv_val(old(self)@, id).price,
                        uri: kv_val(old(self)@, id).uri,
                        sold: true,
                    }),
                ),
            ),
    {
        match self.models.index_of(id) {
            Some(i) => {
                let m = self.models.val_at(i);
                if m.sold {
                    return Err("sold");
                }
                if paid < m.price {
                    return Err("price");
                }
                let m2 = Model {
                    seller: m.seller.clone(),
                    price: m.price,
                    uri: m.uri.clone(),
                    sold: true,
                };
                self.models.set_val_at(i, m2);
                Ok(())
            },
            None => Err("not found"),
        }
    }
}

} // verus!
