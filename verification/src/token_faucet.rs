use vstd::prelude::*;
use crate::kv::{kv_has, kv_idx, kv_val};
use crate::smap::StrMap;

verus! {

/// The time `a` last drew from the faucet, zero for one never seen.
pub open spec fn last_request_of(m: Seq<(Seq<char>, u64)>, a: Seq<char>) -> int {
    if kv_has(m, a) {
        kv_val(m, a) as int
    } else {
        0
    }
}

/// A token faucet dispensing a fixed amount, rate-limited per account.
pub struct TokenFaucet {
    pub owner: String,
    pub drip_amount: u64,
    pub wait_seconds: u64,
    pub last_request: StrMap<u64>,
}

impl TokenFaucet {
    pub open spec fn view(&self) -> Seq<(Seq<char>, u64)> {
        self.last_request@
    }

    pub open spec fn wf(&self) -> bool {
        self.last_request.wf()
    }

    pub fn new(owner: String, drip_amount: u64, wait_seconds: u64) -> (r: Self)
        ensures
            r.wf(),
            r.owner == owner,
            r.drip_amount == drip_amount,
            r.wait_seconds == wait_seconds,
            r@ == Seq::<(Seq<char>, u64)>::empty(),
    {
        TokenFaucet { owner, drip_amount, wait_seconds, last_request: StrMap::new() }
    }

    /// Dispenses the drip amount, unless the caller drew within the waiting
    /// period; the request time is recorded on success.
    pub fn request(&mut self, caller: &str, now: u64) -> (r: Result<u64, &'static str>)
        requires
            old(self).wf(),
            last_request_of(old(self)@, caller@) + old(self).wait_seconds <= u64::MAX,
        ensures
            final(self).wf(),
            final(self).drip_amount == old(self).drip_amount,
            final(self).wait_seconds == old(self).wait_seconds,
            now < last_request_of(old(self)@, caller@) + old(self).wait_seconds ==> r == Err::<
                u64,
                &'static str,
            >("wait") && *final(self) == *old(self),
            now >= last_request_of(old(self)@, caller@) + old(self).wait_seconds ==> r == Ok::<
                u64,
                &'static str,
            >(old(self).drip_amount) && (if kv_has(old(self)@, caller@) {
                final(self)@ == old(self)@.update(kv_idx(old(self)@, caller@), (caller@, now))
            } else {
                final(self)@ == old(self)@.push((caller@, now))
            }),
    {
        let last: u64 = match self.last_request.get(caller) {
            Some(t) => *t,
            None => 0,
        };
        if now < last + self.wait_seconds {
            return Err("wait");
        }
        self.last_request.insert(caller.to_owned(), now);
        Ok(self.drip_amount)
    }
}

} // verus!
