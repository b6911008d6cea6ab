use vstd::prelude::*;
use crate::kv::{kv_has, kv_idx, kv_val};
use crate::idmap::IdMap;
use crate::smap::StrMap;

verus! {

/// The number of tokens `a` owns, zero for an unknown account.
pub open spec fn spec_owned(m: Seq<(Seq<char>, u64)>, a: Seq<char>) -> int {
    if kv_has(m, a) {
        kv_val(m, a) as int
    } else {
        0
    }
}

/// A minimal non-fungible token mint: sequential token identifiers, each
/// owned by one account, with per-account token counts.
pub struct NftMinting {
    pub name: String,
    pub symbol: String,
    pub token_count: u64,
    pub owner_of: IdMap<String>,
    pub balance_of: StrMap<u64>,
}

impl NftMinting {
    pub open spec fn wf(&self) -> bool {
        &&& self.owner_of.wf()
        &&& self.balance_of.wf()
        &&& forall|i: int| 0 <= i < self.owner_of@.len() ==> (#[trigger] self.owner_of@[i]).0
            <= self.token_count
    }

    pub fn new(name: String, symbol: String) -> (r: Self)
        ensures
            r.wf(),
            r.name == name,
            r.symbol == symbol,
            r.token_count == 0,
            r.owner_of@ == Seq::<(u64, String)>::empty(),
            r.balance_of@ == Seq::<(Seq<char>, u64)>::empty(),
    {
        NftMinting {
            name,
            symbol,
            token_count: 0,
            owner_of: IdMap::new(),
            balance_of: StrMap::new(),
        }
    }

    /// Mints the next token to `to` and returns its identifier.
    pub fn mint(&mut self, to: String) -> (r: u64)
        requires
            old(self).wf(),
            old(self).token_count < u64::MAX,
            spec_owned(old(self).balance_of@, to@) < u64::MAX,
        ensures
            final(self).wf(),
            r == old(self).token_count + 1,
            final(self).token_count == r,
            final(self).owner_of@ == old(self).owner_of@.push((r, to)),
            kv_has(old(self).balance_of@, to@) ==> final(self).balance_of@ == old(self).balance_of@.update(
                kv_idx(old(self).balance_of@, to@),
                (to@, (spec_owned(old(self).balance_of@, to@) + 1) as u64),
            ),
            !kv_has(old(self).balance_of@, to@) ==> final(self).balance_of@ == old(self).balance_of@.push((to@, 1)),
    {
        self.token_count += 1;
        proof {
            assert(!kv_has(self.owner_of@, self.token_count));
        }
        self.owner_of.insert(self.token_count, to.clone());
        match self.balance_of.index_of(to.as_str()) {
            Some(i) => {
                let b = *self.balance_of.val_at(i);
                self.balance_of.set_val_at(i, b + 1);
            },
            None => {
                self.balance_of.insert(to, 1);
            },
        }
        self.token_count
    }
}

} // verus!
