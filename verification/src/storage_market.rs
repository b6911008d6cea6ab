use vstd::prelude::*;
use crate::kv::{kv_has, kv_idx, kv_val};
use crate::smap::StrMap;

verus! {

/// A key/value storage market: each write must pay at least the market's
/// price.
pub struct StorageMarket {
    pub owner: String,
    pub price: u128,
    pub data: StrMap<String>,
}

impl StorageMarket {
    pub open spec fn view(&self) -> Seq<(Seq<char>, String)> {
        self.data@
    }

    pub open spec fn wf(&self) -> bool {
        self.data.wf()
    }

    pub fn new(owner: String, price: u128) -> (r: Self)
        ensures
            r.wf(),
            r.owner == owner,
            r.price == price,
            r@ == Seq::<(Seq<char>, String)>::empty(),
    {
        StorageMarket { owner, price, data: StrMap::new() }
    }

    /// Stores `value` under `key` when the fee is paid; an underpaid write
    /// fails and changes nothing.
    pub fn save(&mut self, key: String, value: String, paid: u128) -> (r: Result<
        (),
        &'static str,
    >)
        requires
            old(self).wf(),
        ensures
            final(self).wf(),
            final(self).price == old(self).price,
            paid < old(self).price ==> r == Err::<(), &'static str>("fee") && *final(self) == *old(self),
            paid >= old(self).price && kv_has(old(self)@, key@) ==> r == Ok::<(), &'static str>(())
                && final(self)@ == old(self)@.update(kv_idx(old(self)@, key@), (key@, value)),
            paid >= old(self).price && !kv_has(old(self)@, key@) ==> r == Ok::<(), &'static str>(
                (),
            ) && final(self)@ == old(self)@.push((key@, value)),
    {
        if paid < self.price {
            return Err("fee");
        }
        self.data.insert(key, value);
        Ok(())
    }

    /// Reads a stored value.
    pub fn retrieve(&self, key: &str) -> (r: Option<&String>)
        requires
            self.wf(),
        ensures
            match r {
                Some(v) => kv_has(self@, key@) && *v == kv_val(self@, key@),
                None => !kv_has(self@, key@),
            },
    {
        self.data.get(key)
    }
}

} // verus!
