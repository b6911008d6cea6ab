use vstd::prelude::*;
use crate::kv::{kv_has, kv_idx, kv_val, kv_idx_unique};
use crate::smap::StrMap;
use crate::sets::StrSet;

verus! {

/// Role-based access control: each named role holds a set of member accounts.
pub struct RBAC {
    pub roles: StrMap<StrSet>,
    pub admin_role: String,
}

impl RBAC {
    pub open spec fn view(&self) -> Seq<(Seq<char>, StrSet)> {
        self.roles@
    }

    pub open spec fn wf(&self) -> bool {
        &&& self.roles.wf()
        &&& forall|i: int| 0 <= i < self.roles@.len() ==> (#[trigger] self.roles@[i]).1.wf()
    }

    pub fn new(admin_role: String) -> (r: Self)
        ensures
            r.wf(),
            r.admin_role == admin_role,
            r@ == Seq::<(Seq<char>, StrSet)>::empty(),
    {
        RBAC { roles: StrMap::new(), admin_role }
    }

    /// Puts `account` into `role`, creating the role if needed; a repeated
    /// grant counts once.
    pub fn grant_role(&mut self, role: String, account: String)
        requires
            old(self).wf(),
        ensures
            final(self).wf(),
            final(self).admin_role == old(self).admin_role,
            !kv_has(old(self)@, role@) ==> final(self)@.len() == old(self)@.len() + 1 && final(self)@ == old(self)@.push((role@, final(self)@.last().1)) && final(self)@.last().1@
                == seq![account@],
            kv_has(old(self)@, role@) ==> final(self)@ == old(self)@.update(
                kv_idx(old(self)@, role@),
                (role@, final(self)@[kv_idx(old(self)@, role@)].1),
            ) && (if kv_val(old(self)@, role@)@.contains(account@) {
                final(self)@[kv_idx(old(self)@, role@)].1@ == kv_val(old(self)@, role@)@
            } else {
                final(self)@[kv_idx(old(self)@, role@)].1@ == kv_val(old(self)@, role@)@.push(
                    account@,
                )
            }),
    {
        match self.roles.index_of(role.as_str()) {
            Some(i) => {
                let mut members = self.roles.replace_val_at(i, StrSet::new());
                members.insert(account);
                self.roles.set_val_at(i, members);
                proof {
                    kv_idx_unique(old(self)@, role@, i as int);
                }
            },
            None => {
                let mut members = StrSet::new();
                members.insert(account);
                self.roles.insert(role, members);
                proof {
                    assert(self@.last().1@ =~= seq![account@]);
                }
            },
        }
    }

    /// Takes `account` out of `role`, if both exist.
    pub fn revoke_role(&mut self, role: &str, account: &str)
        requires
            old(self).wf(),
        ensures
            final(self).wf(),
            final(self).admin_role == old(self).admin_role,
            !kv_has(old(self)@, role@) ==> *final(self) == *old(self),
            kv_has(old(self)@, role@) ==> final(self)@ == old(self)@.update(
                kv_idx(old(self)@, role@),
                (role@, final(self)@[kv_idx(old(self)@, role@)].1),
            ) && !final(self)@[kv_idx(old(self)@, role@)].1@.contains(account@) && (if kv_val(
                old(self)@,
                role@,
            )@.contains(account@) {
                final(self)@[kv_idx(old(self)@, role@)].1@ == kv_val(old(self)@, role@)@.remove(
                    kv_val(old(self)@, role@)@.index_of(account@),
                )
            } else {
                final(self)@[kv_idx(old(self)@, role@)].1@ == kv_val(old(self)@, role@)@
            }),
    {
        match self.roles.index_of(role) {
            Some(i) => {
                let mut members = self.roles.replace_val_at(i, StrSet::new());
                members.remove(account);
                self.roles.set_val_at(i, members);
                proof {
                    kv_idx_unique(old(self)@, role@, i as int);
                }
            },
            None => {},
        }
    }

    /// Says whether `account` holds `role`.
    pub fn has_role(&self, role: &str, account: &str) -> (r: bool)
        requires
            self.wf(),
        ensures
            r == (kv_has(self@, role@) && kv_val(self@, role@)@.contains(account@)),
    {
        match self.roles.get(role) {
            Some(members) => members.contains(account),
            None => false,
        }
    }

    /// All members of `role`, in granting order; empty for an unknown role.
    pub fn list_members(&self, role: &str) -> (r: Vec<String>)
        requires
            self.wf(),
        ensures
            kv_has(self@, role@) ==> r@.len() == kv_val(self@, role@)@.len() && forall|j: int|
                0 <= j < r@.len() ==> (#[trigger] r@[j])@ == kv_val(self@, role@)@[j],
            !kv_has(self@, role@) ==> r@.len() == 0,
    {
        match self.roles.get(role) {
            Some(members) => {
                let n: usize = members.len();
                let mut result: Vec<String> = Vec::new();
                let mut i: usize = 0;
                while i < n
                    invariant
                        0 <= i <= n,
                        n == members@.len(),
                        result@.len() == i,
                        forall|j: int| 0 <= j < i ==> (#[trigger] result@[j])@ == members@[j],
                    decreases n - i,
                {
                    result.push(members.item_at(i).clone());
                    i += 1;
                }
                result
            },
            None => Vec::new(),
        }
    }
}

} // verus!
