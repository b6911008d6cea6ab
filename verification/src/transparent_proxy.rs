use vstd::prelude::*;
use crate::strutil::str_eq_string;

verus! {

/// A proxy whose implementation upgrades are staged by an admin and applied
/// in a second, explicit step.
pub struct TransparentProxy {
    pub admin: String,
    pub implementation: String,
    pub pending_implementation: Option<String>,
    pub version: u32,
}

impl TransparentProxy {
    pub fn new(admin: String, implementation: String) -> (r: Self)
        ensures
            r.admin == admin,
            r.implementation == implementation,
            r.pending_implementation is None,
            r.version == 1,
    {
        TransparentProxy { admin, implementation, pending_implementation: None, version: 1 }
    }

    /// The admin stages an implementation for a later `finalize_upgrade`.
    pub fn upgrade_to(&mut self, caller: &str, implementation: String) -> (r: Result<
        (),
        &'static str,
    >)
        ensures
            caller@ != old(self).admin@ ==> r == Err::<(), &'static str>("only admin") && *final(self) == *old(self),
            caller@ == old(self).admin@ ==> r == Ok::<(), &'static str>(()) && *final(self)
                == (TransparentProxy {
                pending_implementation: Some(implementation),
                ..*old(self)
            }),
    {
        if !str_eq_string(caller, &self.admin) {
            return Err("only admin");
        }
        self.pending_implementation = Some(implementation);
        Ok(())
    }

    /// The admin applies the staged implementation, bumping the version;
    /// without one staged, the call fails.
    pub fn finalize_upgrade(&mut self, caller: &str) -> (r: Result<(), &'static str>)
        requires
            old(self).version < u32::MAX,
        ensures
            caller@ != old(self).admin@ ==> r == Err::<(), &'static str>("only admin") && *final(self) == *old(self),
            caller@ == old(self).admin@ && old(self).pending_implementation is None ==> r == Err::<
                (),
                &'static str,
            >("no upgrade") && *final(self) == *old(self),
            caller@ == old(self).admin@ && old(self).pending_implementation is Some ==> r == Ok::<
                (),
                &'static str,
            >(()) && *final(self) == (TransparentProxy {
                admin: old(self).admin,
                implementation: old(self).pending_implementation->0,
                pending_implementation: None,
                version: (old(self).version + 1) as u32,
            }),
    {
        if !str_eq_string(caller, &self.admin) {
            return Err("only admin");
        }
        let staged = self.pending_implementation.take();
        match staged {
            Some(new_impl) => {
                self.implementation = new_impl;
                self.version += 1;
                Ok(())
            },
            None => Err("no upgrade"),
        }
    }

    /// The admin hands the proxy to a new admin.
    pub fn change_admin(&mut self, caller: &str, new_admin: String) -> (r: Result<
        (),
        &'static str,
    >)
        ensures
            caller@ != old(self).admin@ ==> r == Err::<(), &'static str>("only admin") && *final(self) == *old(self),
            caller@ == old(self).admin@ ==> r == Ok::<(), &'static str>(()) && *final(self)
                == (TransparentProxy { admin: new_admin, ..*old(self) }),
    {
        if !str_eq_string(caller, &self.admin) {
            return Err("only admin");
        }
        self.admin = new_admin;
        Ok(())
    }
}

} // verus!
