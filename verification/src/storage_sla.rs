use vstd::prelude::*;
use crate::arith::{s_add, sat_add_u128};
use crate::kv::{kv_has, kv_idx, kv_val, kv_idx_unique};
use crate::smap::StrMap;

verus! {

/// One provider's service-level record: its uptime target, accumulated
/// penalties, and the reported uptime history.
pub struct ProviderSla {
    pub target_uptime: u8,
    pub penalties: u128,
    pub history: Vec<(u64, u8)>,
}

/// A storage service-level agreement: each uptime report below the provider's
/// target adds one penalty at the fixed rate.
pub struct StorageSLA {
    pub providers: StrMap<ProviderSla>,
    pub penalty_rate: u128,
}

impl StorageSLA {
    pub open spec fn view(&self) -> Seq<(Seq<char>, ProviderSla)> {
        self.providers@
    }

    pub open spec fn wf(&self) -> bool {
        self.providers.wf()
    }

    pub fn new(penalty_rate: u128) -> (r: Self)
        ensures
            r.wf(),
            r.penalty_rate == penalty_rate,
            r@ == Seq::<(Seq<char>, ProviderSla)>::empty(),
    {
        StorageSLA { providers: StrMap::new(), penalty_rate }
    }

    /// Registers (or resets) a provider at an uptime target, with no
    /// penalties and no history.
    pub fn register_provider(&mut self, provider: String, target_uptime: u8)
        requires
            old(self).wf(),
        ensures
            final(self).wf(),
            final(self).penalty_rate == old(self).penalty_rate,
            kv_has(old(self)@, provider@) ==> final(self)@ == old(self)@.update(
                kv_idx(old(self)@, provider@),
                (provider@, final(self)@[kv_idx(old(self)@, provider@)].1),
            ) && final(self)@[kv_idx(old(self)@, provider@)].1.target_uptime == target_uptime
                && final(self)@[kv_idx(old(self)@, provider@)].1.penalties == 0 && final(self)@[kv_idx(old(self)@, provider@)].1.history@ == Seq::<(u64, u8)>::empty(),
            !kv_has(old(self)@, provider@) ==> final(self)@ == old(self)@.push(
                (provider@, final(self)@.last().1),
            ) && final(self)@.last().1.target_uptime == target_uptime && final(self)@.last().1.penalties == 0 && final(self)@.last().1.history@ == Seq::<
                (u64, u8),
            >::empty(),
    {
        self.providers.insert(
            provider,
            ProviderSla { target_uptime, penalties: 0, history: Vec::new() },
        );
        proof {
            if kv_has(old(self)@, provider@) {
                kv_idx_unique(old(self)@, self@[kv_idx(old(self)@, provider@)].0, kv_idx(
                    old(self)@,
                    provider@,
                ));
            }
        }
    }

    /// Records an uptime reading; a reading below the target adds one penalty
    /// at the agreement's rate.
    pub fn record_uptime(&mut self, provider: &str, timestamp: u64, uptime: u8) -> (r: Result<
        (),
        &'static str,
    >)
        requires
            old(self).wf(),
        ensures
            final(self).wf(),
            final(self).penalty_rate == old(self).penalty_rate,
            !kv_has(old(self)@, provider@) ==> r == Err::<(), &'static str>("unknown") && *final(self) == *old(self),
            kv_has(old(self)@, provider@) ==> r == Ok::<(), &'static str>(()) && final(self)@
                == old(self)@.update(
                kv_idx(old(self)@, provider@),
                (provider@, final(self)@[kv_idx(old(self)@, provider@)].1),
            ) && {
                let before = kv_val(old(self)@, provider@);
                let after = final(self)@[kv_idx(old(self)@, provider@)].1;
                &&& after.target_uptime == before.target_uptime
                &&& after.history@ == before.history@.push((timestamp, uptime))
                &&& (uptime < before.target_uptime ==> after.penalties == s_add(
                    before.penalties as int,
                    old(self).penalty_rate as int,
                ))
                &&& (uptime >= before.target_uptime ==> after.penalties == before.penalties)
            },
    {
        match self.providers.index_of(provider) {
            Some(i) => {
                let placeholder = ProviderSla {
                    target_uptime: 0,
                    penalties: 0,
                    history: Vec::new(),
                };
                let mut entry = self.providers.replace_val_at(i, placeholder);
                entry.history.push((timestamp, uptime));
                if uptime < entry.target_uptime {
                    entry.penalties = sat_add_u128(entry.penalties, self.penalty_rate);
                }
                self.providers.set_val_at(i, entry);
                proof {
                    kv_idx_unique(old(self)@, provider@, i as int);
                }
                Ok(())
            },
            None => Err("unknown"),
        }
    }

    /// A provider's accumulated penalties, or nothing for an unknown one.
    pub fn penalties(&self, provider: &str) -> (r: Option<u128>)
        requires
            self.wf(),
        ensures
            match r {
                Some(p) => kv_has(self@, provider@) && p == kv_val(self@, provider@).penalties,
                None => !kv_has(self@, provider@),
            },
    {
        match self.providers.get(provider) {
            Some(entry) => Some(entry.penalties),
            None => None,
        }
    }
}

} // verus!
