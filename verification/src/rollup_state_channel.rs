use vstd::prelude::*;
use crate::idmap::IdMap;
use crate::kv::{kv_has, kv_idx, kv_val, kv_idx_unique};
use crate::smap::StrMap;
use crate::strutil::str_eq_string;

verus! {

/// A payment channel between two parties: off-chain balances at a version,
/// and an optional closing time once a party initiates settlement.
pub struct Channel {
    pub party_a: String,
    pub party_b: String,
    pub balances: StrMap<u128>,
    pub version: u64,
    pub closing_time: Option<u64>,
    pub open: bool,
}

/// A rollup of state channels: parties post strictly newer states, start a
/// challenge window to close, and finalise after it elapses.
pub struct RollupStateChannel {
    pub channels: IdMap<Channel>,
    pub challenge_period: u64,
    pub next_id: u64,
}

impl RollupStateChannel {
    pub open spec fn view(&self) -> Seq<(u64, Channel)> {
        self.channels@
    }

    pub open spec fn wf(&self) -> bool {
        &&& self.channels.wf()
        &&& forall|i: int| 0 <= i < self.channels@.len() ==> (#[trigger] self.channels@[i]).0
            <= self.next_id && self.channels@[i].1.balances.wf()
    }

    pub fn new(challenge_period: u64) -> (r: Self)
        ensures
            r.wf(),
            r.challenge_period == challenge_period,
            r@ == Seq::<(u64, Channel)>::empty(),
            r.next_id == 0,
    {
        RollupStateChannel { channels: IdMap::new(), challenge_period, next_id: 0 }
    }

    /// Opens a channel with each party's deposit and returns its fresh
    /// identifier.
    pub fn open_channel(
        &mut self,
        party_a: String,
        party_b: String,
        deposit_a: u128,
        deposit_b: u128,
    ) -> (r: u64)
        requires
            old(self).wf(),
            old(self).next_id < u64::MAX,
        ensures
            final(self).wf(),
            r == old(self).next_id + 1,
            final(self).next_id == r,
            final(self).challenge_period == old(self).challenge_period,
            final(self)@.len() == old(self)@.len() + 1,
            final(self)@ == old(self)@.push((r, final(self)@.last().1)),
            final(self)@.last().1.party_a == party_a,
            final(self)@.last().1.party_b == party_b,
            final(self)@.last().1.version == 0,
            final(self)@.last().1.closing_time is None,
            final(self)@.last().1.open,
            party_a@ != party_b@ ==> final(self)@.last().1.balances@ == seq![
                (party_a@, deposit_a),
                (party_b@, deposit_b),
            ],
            party_a@ == party_b@ ==> final(self)@.last().1.balances@ == seq![
                (party_a@, deposit_b),
            ],
    {
        self.next_id += 1;
        let mut balances: StrMap<u128> = StrMap::new();
        balances.insert(party_a.clone(), deposit_a);
        proof {
            assert(balances@ =~= seq![(party_a@, deposit_a)]);
        }
        balances.insert(party_b.clone(), deposit_b);
        proof {
            assert(!kv_has(self.channels@, self.next_id));
            if party_a@ != party_b@ {
                assert(balances@ =~= seq![(party_a@, deposit_a), (party_b@, deposit_b)]);
            } else {
                crate::kv::kv_idx_unique(seq![(party_a@, deposit_a)], party_b@, 0);
                assert(balances@ =~= seq![(party_a@, deposit_b)]);
            }
        }
        self.channels.insert(
            self.next_id,
            Channel {
                party_a,
                party_b,
                balances,
                version: 0,
                closing_time: None,
                open: true,
            },
        );
        self.next_id
    }

    /// A party posts a strictly newer state whose balances cover both
    /// parties; any pending closing is cancelled.
    pub fn update_state(&mut self, id: u64, caller: &str, version: u64, balances: StrMap<u128>)
        -> (r: Result<(), &'static str>)
        requires
            old(self).wf(),
            balances.wf(),
        ensures
            final(self).wf(),
            final(self).next_id == old(self).next_id,
            final(self).challenge_period == old(self).challenge_period,
            !kv_has(old(self)@, id) ==> r == Err::<(), &'static str>("not found") && *final(self)
                == *old(self),
            kv_has(old(self)@, id) && !kv_val(old(self)@, id).open ==> r == Err::<
                (),
                &'static str,
            >("closed") && *final(self) == *old(self),
            kv_has(old(self)@, id) && kv_val(old(self)@, id).open && kv_val(
                old(self)@,
                id,
            ).party_a@ != caller@ && kv_val(old(self)@, id).party_b@ != caller@ ==> r == Err::<
                (),
                &'static str,
            >("unauthorised") && *final(self) == *old(self),
            kv_has(old(self)@, id) && kv_val(old(self)@, id).open && (kv_val(
                old(self)@,
                id,
            ).party_a@ == caller@ || kv_val(old(self)@, id).party_b@ == caller@) && version
                <= kv_val(old(self)@, id).version ==> r == Err::<(), &'static str>("stale")
                && *final(self) == *old(self),
            kv_has(old(self)@, id) && kv_val(old(self)@, id).open && (kv_val(
                old(self)@,
                id,
            ).party_a@ == caller@ || kv_val(old(self)@, id).party_b@ == caller@) && version
                > kv_val(old(self)@, id).version && !(kv_has(
                balances@,
                kv_val(old(self)@, id).party_a@,
            ) && kv_has(balances@, kv_val(old(self)@, id).party_b@)) ==> r == Err::<
                (),
                &'static str,
            >("invalid state") && *final(self) == *old(self),
            kv_has(old(self)@, id) && kv_val(old(self)@, id).open && (kv_val(
                old(self)@,
                id,
            ).party_a@ == caller@ || kv_val(old(self)@, id).party_b@ == caller@) && version
                > kv_val(old(self)@, id).version && kv_has(
                balances@,
                kv_val(old(self)@, id).party_a@,
            ) && kv_has(balances@, kv_val(old(self)@, id).party_b@) ==> r == Ok::<
                (),
                &'static str,
            >(()) && final(self)@ == old(self)@.update(
                kv_idx(old(self)@, id),
                (id, kv_val(final(self)@, id)),
            ) && kv_val(final(self)@, id).version == version && kv_val(final(self)@, id).balances@
                == balances@ && kv_val(final(self)@, id).closing_time is None && kv_val(
                final(self)@,
                id,
            ).open && kv_val(final(self)@, id).party_a == kv_val(old(self)@, id).party_a && kv_val(
                final(self)@,
                id,
            ).party_b == kv_val(old(self)@, id).party_b,
    {
        match self.channels.index_of(id) {
            Some(i) => {
                if !self.channels.val_at(i).open {
                    return Err("closed");
                }
                let is_a = str_eq_string(caller, &self.channels.val_at(i).party_a);
                let is_b = str_eq_string(caller, &self.channels.val_at(i).party_b);
                if !is_a && !is_b {
                    return Err("unauthorised");
                }
                if version <= self.channels.val_at(i).version {
                    return Err("stale");
                }
                let has_a = balances.contains_key(self.channels.val_at(i).party_a.as_str());
                let has_b = balances.contains_key(self.channels.val_at(i).party_b.as_str());
                if !has_a || !has_b {
                    return Err("invalid state");
                }
                let placeholder = Channel {
                    party_a: String::new(),
                    party_b: String::new(),
                    balances: StrMap::new(),
                    version: 0,
                    closing_time: None,
                    open: false,
                };
                let c = self.channels.replace_val_at(i, placeholder);
                self.channels.set_val_at(
                    i,
                    Channel {
                        party_a: c.party_a,
                        party_b: c.party_b,
                        balances,
                        version,
                        closing_time: None,
                        open: true,
                    },
                );
                proof {
                    kv_idx_unique(self@, id, i as int);
                }
                Ok(())
            },
            None => Err("not found"),
        }
    }

    /// A party starts (or restarts) the closing clock: the channel may be
    /// finalised once the challenge period has elapsed.
    pub fn initiate_close(&mut self, id: u64, caller: &str, now: u64) -> (r: Result<
        (),
        &'static str,
    >)
        requires
            old(self).wf(),
            now + old(self).challenge_period <= u64::MAX,
        ensures
            final(self).wf(),
            final(self).next_id == old(self).next_id,
            final(self).challenge_period == old(self).challenge_period,
            !kv_has(old(self)@, id) ==> r == Err::<(), &'static str>("not found") && *final(self)
                == *old(self),
            kv_has(old(self)@, id) && kv_val(old(self)@, id).party_a@ != caller@ && kv_val(
                old(self)@,
                id,
            ).party_b@ != caller@ ==> r == Err::<(), &'static str>("unauthorised") && *final(self)
                == *old(self),
            kv_has(old(self)@, id) && (kv_val(old(self)@, id).party_a@ == caller@ || kv_val(
                old(self)@,
                id,
            ).party_b@ == caller@) ==> r == Ok::<(), &'static str>(()) && final(self)@ == old(
                self,
            )@.update(kv_idx(old(self)@, id), (id, kv_val(final(self)@, id))) && kv_val(
                final(self)@,
                id,
            ).closing_time == Some((now + old(self).challenge_period) as u64) && kv_val(
                final(self)@,
                id,
            ).version == kv_val(old(self)@, id).version && kv_val(final(self)@, id).balances@
                == kv_val(old(self)@, id).balances@ && kv_val(final(self)@, id).open == kv_val(
                old(self)@,
                id,
            ).open,
    {
        match self.channels.index_of(id) {
            Some(i) => {
                let is_a = str_eq_string(caller, &self.channels.val_at(i).party_a);
                let is_b = str_eq_string(caller, &self.channels.val_at(i).party_b);
                if !is_a && !is_b {
                    return Err("unauthorised");
                }
                let placeholder = Channel {
                    party_a: String::new(),
                    party_b: String::new(),
                    balances: StrMap::new(),
                    version: 0,
                    closing_time: None,
                    open: false,
                };
                let c = self.channels.replace_val_at(i, placeholder);
                let close_time = now + self.challenge_period;
                self.channels.set_val_at(
                    i,
                    Channel { closing_time: Some(close_time), ..c },
                );
                proof {
                    kv_idx_unique(self@, id, i as int);
                }
                Ok(())
            },
            None => Err("not found"),
        }
    }

    /// Finalises a channel whose challenge window has elapsed: it closes, and
    /// the settled balances are returned.
    pub fn finalize(&mut self, id: u64, now: u64) -> (r: Result<StrMap<u128>, &'static str>)
        requires
            old(self).wf(),
        ensures
            final(self).wf(),
            final(self).next_id == old(self).next_id,
            final(self).challenge_period == old(self).challenge_period,
            !kv_has(old(self)@, id) ==> r == Err::<StrMap<u128>, &'static str>("not found")
                && *final(self) == *old(self),
            kv_has(old(self)@, id) && kv_val(old(self)@, id).closing_time is None ==> r == Err::<
                StrMap<u128>,
                &'static str,
            >("not closing") && *final(self) == *old(self),
            kv_has(old(self)@, id) && kv_val(old(self)@, id).closing_time is Some && now < kv_val(
                old(self)@,
                id,
            ).closing_time->0 ==> r == Err::<StrMap<u128>, &'static str>("challenge active")
                && *final(self) == *old(self),
            kv_has(old(self)@, id) && kv_val(old(self)@, id).closing_time is Some && now >= kv_val(
                old(self)@,
                id,
            ).closing_time->0 ==> (r matches Ok(balances) && balances@ == kv_val(
                old(self)@,
                id,
            ).balances@) && final(self)@ == old(self)@.update(
                kv_idx(old(self)@, id),
                (id, kv_val(final(self)@, id)),
            ) && !kv_val(final(self)@, id).open && kv_val(final(self)@, id).balances@ == kv_val(
                old(self)@,
                id,
            ).balances@ && kv_val(final(self)@, id).version == kv_val(old(self)@, id).version,
    {
        match self.channels.index_of(id) {
            Some(i) => {
                match self.channels.val_at(i).closing_time {
                    Some(close_time) => {
                        if now < close_time {
                            return Err("challenge active");
                        }
                    },
                    None => {
                        return Err("not closing");
                    },
                }
                let placeholder = Channel {
                    party_a: String::new(),
                    party_b: String::new(),
                    balances: StrMap::new(),
                    version: 0,
                    closing_time: None,
                    open: false,
                };
                let c = self.channels.replace_val_at(i, placeholder);
                let settled = c.balances.duplicate();
                self.channels.set_val_at(i, Channel { open: false, ..c });
                proof {
                    kv_idx_unique(self@, id, i as int);
                }
                Ok(settled)
            },
            None => Err("not found"),
        }
    }
}

} // verus!
