use vstd::prelude::*;
use crate::kv::{kv_has, kv_idx, kv_val};
use crate::smap::StrMap;
use crate::strutil::str_eq_string;

verus! {

/// The delegators whose recorded representative is `delegate`, in order.
pub open spec fn delegators_of(s: Seq<(Seq<char>, String)>, delegate: Seq<char>) -> Seq<Seq<char>>
    decreases s.len(),
{
    if s.len() == 0 {
        Seq::empty()
    } else {
        let rest = delegators_of(s.drop_last(), delegate);
        if s.last().1@ == delegate {
            rest.push(s.last().0)
        } else {
            rest
        }
    }
}

/// A delegation register: each delegator names at most one representative.
pub struct DelegatedRepresentation {
    pub delegations: StrMap<String>,
}

impl DelegatedRepresentation {
    pub open spec fn view(&self) -> Seq<(Seq<char>, String)> {
        self.delegations@
    }

    pub open spec fn wf(&self) -> bool {
        self.delegations.wf()
    }

    pub fn new() -> (r: Self)
        ensures
            r.wf(),
            r@ == Seq::<(Seq<char>, String)>::empty(),
    {
        DelegatedRepresentation { delegations: StrMap::new() }
    }

    /// Records `delegate` as `delegator`'s representative, replacing any
    /// prior choice.
    pub fn delegate(&mut self, delegator: String, delegate: String)
        requires
            old(self).wf(),
        ensures
            final(self).wf(),
            kv_has(old(self)@, delegator@) ==> final(self)@ == old(self)@.update(
                kv_idx(old(self)@, delegator@),
                (delegator@, delegate),
            ),
            !kv_has(old(self)@, delegator@) ==> final(self)@ == old(self)@.push(
                (delegator@, delegate),
            ),
    {
        self.delegations.insert(delegator, delegate);
    }

    /// Withdraws `delegator`'s delegation, if any.
    pub fn revoke(&mut self, delegator: &str)
        requires
            old(self).wf(),
        ensures
            final(self).wf(),
            kv_has(old(self)@, delegator@) ==> final(self)@ == old(self)@.remove(
                kv_idx(old(self)@, delegator@),
            ),
            !kv_has(old(self)@, delegator@) ==> final(self)@ == old(self)@,
    {
        self.delegations.remove(delegator);
    }

    /// The representative `delegator` chose, if any.
    pub fn representative_of(&self, delegator: &str) -> (r: Option<&String>)
        requires
            self.wf(),
        ensures
            match r {
                Some(d) => kv_has(self@, delegator@) && *d == kv_val(self@, delegator@),
                None => !kv_has(self@, delegator@),
            },
    {
        self.delegations.get(delegator)
    }

    /// All delegators whose representative is `delegate`, in recording order.
    pub fn delegators_for(&self, delegate: &str) -> (r: Vec<String>)
        requires
            self.wf(),
        ensures
            r.deep_view() == delegators_of(self@, delegate@),
    {
        let owned: String = delegate.to_owned();
        let mut result: Vec<String> = Vec::new();
        let n: usize = self.delegations.len();
        let mut i: usize = 0;
        while i < n
            invariant
                self.wf(),
                n == self@.len(),
                0 <= i <= n,
                owned@ == delegate@,
                result.deep_view() == delegators_of(self@.take(i as int), delegate@),
            decreases n - i,
        {
            proof {
                assert(self@.take(i as int + 1).drop_last() =~= self@.take(i as int));
                assert(self@.take(i as int + 1).last() == self@[i as int]);
            }
            let d = self.delegations.val_at(i);
            if *d == owned {
                result.push(self.delegations.key_at(i).clone());
                proof {
                    assert(result.deep_view() =~= delegators_of(
                        self@.take(i as int + 1),
                        delegate@,
                    ));
                }
            } else {
                proof {
                    assert(result.deep_view() =~= delegators_of(
                        self@.take(i as int + 1),
                        delegate@,
                    ));
                }
            }
            i += 1;
        }
        proof {
            assert(self@.take(n as int) =~= self@);
        }
        result
    }
}

} // verus!
