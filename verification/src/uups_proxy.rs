use vstd::prelude::*;
use crate::strutil::str_eq_string;

verus! {

/// A proxy whose designated upgrader swaps the implementation directly.
pub struct UUPSProxy {
    pub implementation: String,
    pub upgrader: String,
    pub version: u32,
}

impl UUPSProxy {
    pub fn new(implementation: String, upgrader: String) -> (r: Self)
        ensures
            r.implementation == implementation,
            r.upgrader == upgrader,
            r.version == 1,
    {
        UUPSProxy { implementation, upgrader, version: 1 }
    }

    /// The upgrader swaps the implementation, bumping the version.
    pub fn upgrade(&mut self, caller: &str, new_implementation: String) -> (r: Result<
        (),
        &'static str,
    >)
        requires
            old(self).version < u32::MAX,
        ensures
            caller@ != old(self).upgrader@ ==> r == Err::<(), &'static str>("only upgrader")
                && *final(self) == *old(self),
            caller@ == old(self).upgrader@ ==> r == Ok::<(), &'static str>(()) && *final(self)
                == (UUPSProxy {
                implementation: new_implementation,
                upgrader: old(self).upgrader,
                version: (old(self).version + 1) as u32,
            }),
    {
        if !str_eq_string(caller, &self.upgrader) {
            return Err("only upgrader");
        }
        self.implementation = new_implementation;
        self.version += 1;
        Ok(())
    }

    /// The upgrader hands the role to a new upgrader.
    pub fn transfer_upgrader(&mut self, caller: &str, new_upgrader: String) -> (r: Result<
        (),
        &'static str,
    >)
        ensures
            caller@ != old(self).upgrader@ ==> r == Err::<(), &'static str>("only upgrader")
                && *final(self) == *old(self),
            caller@ == old(self).upgrader@ ==> r == Ok::<(), &'static str>(()) && *final(self)
                == (UUPSProxy { upgrader: new_upgrader, ..*old(self) }),
    {
        if !str_eq_string(caller, &self.upgrader) {
            return Err("only upgrader");
        }
        self.upgrader = new_upgrader;
        Ok(())
    }
}

} // verus!
