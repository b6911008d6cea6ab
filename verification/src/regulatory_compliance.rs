use vstd::prelude::*;
use crate::sets::StrSet;
use crate::strutil::str_eq_string;

verus! {

/// An approval register: a regulator grants and withdraws approval, and
/// anyone can check it.
pub struct RegulatoryCompliance {
    pub regulator: String,
    pub approved: StrSet,
}

impl RegulatoryCompliance {
    pub open spec fn view(&self) -> Seq<Seq<char>> {
        self.approved@
    }

    pub open spec fn wf(&self) -> bool {
        self.approved.wf()
    }

    pub fn new(regulator: String) -> (r: Self)
        ensures
            r.wf(),
            r.regulator == regulator,
            r@ == Seq::<Seq<char>>::empty(),
    {
        RegulatoryCompliance { regulator, approved: StrSet::new() }
    }

    /// The regulator grants (`status` true) or withdraws approval.
    pub fn set_approval(&mut self, caller: &str, user: String, status: bool) -> (r: Result<
        (),
        &'static str,
    >)
        requires
            old(self).wf(),
        ensures
            final(self).wf(),
            final(self).regulator == old(self).regulator,
            caller@ != old(self).regulator@ ==> r == Err::<(), &'static str>("only regulator")
                && *final(self) == *old(self),
            caller@ == old(self).regulator@ ==> r == Ok::<(), &'static str>(()) && final(self)@.contains(user@) == status,
            caller@ == old(self).regulator@ && status ==> (if old(self)@.contains(user@) {
                final(self)@ == old(self)@
            } else {
                final(self)@ == old(self)@.push(user@)
            }),
            caller@ == old(self).regulator@ && !status ==> (if old(self)@.contains(user@) {
                final(self)@ == old(self)@.remove(old(self)@.index_of(user@))
            } else {
                final(self)@ == old(self)@
            }),
    {
        if !str_eq_string(caller, &self.regulator) {
            return Err("only regulator");
        }
        if status {
            let ghost pre = self@;
            self.approved.insert(user);
            proof {
                if !pre.contains(user@) {
                    assert(self@[self@.len() - 1] == user@);
                }
            }
        } else {
            self.approved.remove(user.as_str());
        }
        Ok(())
    }

    /// Says whether a user is approved.
    pub fn is_approved(&self, user: &str) -> (r: bool)
        requires
            self.wf(),
        ensures
            r == self@.contains(user@),
    {
        self.approved.contains(user)
    }
}

} // verus!
