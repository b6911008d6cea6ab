use vstd::prelude::*;
use crate::sets::StrSet;

verus! {

/// A sanctions list: accounts are added, removed, and screened against it.
pub struct SanctionsScreen {
    pub listed: StrSet,
}

impl SanctionsScreen {
    pub open spec fn view(&self) -> Seq<Seq<char>> {
        self.listed@
    }

    pub open spec fn wf(&self) -> bool {
        self.listed.wf()
    }

    pub fn new() -> (r: Self)
        ensures
            r.wf(),
            r@ == Seq::<Seq<char>>::empty(),
    {
        SanctionsScreen { listed: StrSet::new() }
    }

    /// Puts an account on the list; listing one twice changes nothing.
    pub fn add(&mut self, account: String)
        requires
            old(self).wf(),
        ensures
            final(self).wf(),
            old(self)@.contains(account@) ==> final(self)@ == old(self)@,
            !old(self)@.contains(account@) ==> final(self)@ == old(self)@.push(account@),
            final(self)@.contains(account@),
    {
        let ghost pre = self@;
        self.listed.insert(account);
        proof {
            if !pre.contains(account@) {
                assert(self@[self@.len() - 1] == account@);
            }
        }
    }

    /// Takes an account off the list.
    pub fn remove(&mut self, account: &str)
        requires
            old(self).wf(),
        ensures
            final(self).wf(),
            old(self)@.contains(account@) ==> final(self)@ == old(self)@.remove(
                old(self)@.index_of(account@),
            ),
            !old(self)@.contains(account@) ==> final(self)@ == old(self)@,
            !final(self)@.contains(account@),
    {
        self.listed.remove(account);
    }

    /// Says whether an account is on the list.
    pub fn is_listed(&self, account: &str) -> (r: bool)
        requires
            self.wf(),
        ensures
            r == self@.contains(account@),
    {
        self.listed.contains(account)
    }
}

} // verus!
