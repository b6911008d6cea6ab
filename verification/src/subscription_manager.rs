use vstd::prelude::*;
use crate::kv::{kv_has, kv_idx, kv_val};
use crate::smap::StrMap;

verus! {

/// A subscription: its plan, expiry time, and whether it stands.
pub struct Subscription {
    pub plan: String,
    pub expiry: u64,
    pub active: bool,
}

/// A subscription book with a fixed default duration: subscribing sets an
/// expiry, renewing extends it, cancelling deactivates it.
pub struct SubscriptionManager {
    pub subscriptions: StrMap<Subscription>,
    pub default_duration: u64,
}

impl SubscriptionManager {
    pub open spec fn view(&self) -> Seq<(Seq<char>, Subscription)> {
        self.subscriptions@
    }

    pub open spec fn wf(&self) -> bool {
        self.subscriptions.wf()
    }

    pub fn new(default_duration: u64) -> (r: Self)
        ensures
            r.wf(),
            r.default_duration == default_duration,
            r@ == Seq::<(Seq<char>, Subscription)>::empty(),
    {
        SubscriptionManager { subscriptions: StrMap::new(), default_duration }
    }

    /// Starts (or restarts) a subscription from `start` for the default
    /// duration.
    pub fn subscribe(&mut self, user: String, plan: String, start: u64)
        requires
            old(self).wf(),
            start + old(self).default_duration <= u64::MAX,
        ensures
            final(self).wf(),
            final(self).default_duration == old(self).default_duration,
            kv_has(old(self)@, user@) ==> final(self)@ == old(self)@.update(
                kv_idx(old(self)@, user@),
                (
                    user@,
                    (Subscription {
                        plan,
                        expiry: (start + old(self).default_duration) as u64,
                        active: true,
                    }),
                ),
            ),
            !kv_has(old(self)@, user@) ==> final(self)@ == old(self)@.push(
                (
                    user@,
                    (Subscription {
                        plan,
                        expiry: (start + old(self).default_duration) as u64,
                        active: true,
                    }),
                ),
            ),
    {
        let expiry = start + self.default_duration;
        self.subscriptions.insert(user, Subscription { plan, expiry, active: true });
    }

    /// Deactivates a subscription; its expiry is kept.
    pub fn cancel(&mut self, user: &str) -> (r: Result<(), &'static str>)
        requires
            old(self).wf(),
        ensures
            final(self).wf(),
            final(self).default_duration == old(self).default_duration,
            !kv_has(old(self)@, user@) ==> r == Err::<(), &'static str>("no subscription")
                && *final(self) == *old(self),
            kv_has(old(self)@, user@) ==> r == Ok::<(), &'static str>(()) && final(self)@ == old(self)@.update(
                kv_idx(old(self)@, user@),
                (
                    user@,
                    (Subscription {
                        plan: kv_val(old(self)@, user@).plan,
                        expiry: kv_val(old(self)@, user@).expiry,
                        active: false,
                    }),
                ),
            ),
    {
        match self.subscriptions.index_of(user) {
            Some(i) => {
                let placeholder = Subscription { plan: String::new(), expiry: 0, active: false };
                let prior = self.subscriptions.replace_val_at(i, placeholder);
                self.subscriptions.set_val_at(
                    i,
                    Subscription { plan: prior.plan, expiry: prior.expiry, active: false },
                );
                proof {
                    assert(self@ =~= old(self)@.update(
                        kv_idx(old(self)@, user@),
                        (user@, self@[i as int].1),
                    ));
                }
                Ok(())
            },
            None => Err("no subscription"),
        }
    }

    /// Reactivates and extends a subscription: a lapsed one runs from `now`,
    /// a live one is extended from its current expiry.
    pub fn renew(&mut self, user: &str, now: u64) -> (r: Result<(), &'static str>)
        requires
            old(self).wf(),
            now + old(self).default_duration <= u64::MAX,
            kv_has(old(self)@, user@) ==> kv_val(old(self)@, user@).expiry + old(self).default_duration <= u64::MAX,
        ensures
            final(self).wf(),
            final(self).default_duration == old(self).default_duration,
            !kv_has(old(self)@, user@) ==> r == Err::<(), &'static str>("no subscription")
                && *final(self) == *old(self),
            kv_has(old(self)@, user@) ==> r == Ok::<(), &'static str>(()) && final(self)@ == old(self)@.update(
                kv_idx(old(self)@, user@),
                (
                    user@,
                    (Subscription {
                        plan: kv_val(old(self)@, user@).plan,
                        expiry: (if now > kv_val(old(self)@, user@).expiry {
                            now + old(self).default_duration
                        } else {
                            kv_val(old(self)@, user@).expiry + old(self).default_duration
                        }) as u64,
                        active: true,
                    }),
                ),
            ),
    {
        match self.subscriptions.index_of(user) {
            Some(i) => {
                let placeholder = Subscription { plan: String::new(), expiry: 0, active: false };
                let prior = self.subscriptions.replace_val_at(i, placeholder);
                let expiry: u64 = if now > prior.expiry {
                    now + self.default_duration
                } else {
                    prior.expiry + self.default_duration
                };
                self.subscriptions.set_val_at(
                    i,
                    Subscription { plan: prior.plan, expiry, active: true },
                );
                proof {
                    assert(self@ =~= old(self)@.update(
                        kv_idx(old(self)@, user@),
                        (user@, self@[i as int].1),
                    ));
                }
                Ok(())
            },
            None => Err("no subscription"),
        }
    }

    /// Says whether `user` holds an active, unexpired subscription at `now`.
    pub fn is_active(&self, user: &str, now: u64) -> (r: bool)
        requires
            self.wf(),
        ensures
            r == (kv_has(self@, user@) && kv_val(self@, user@).active && now <= kv_val(
                self@,
                user@,
            ).expiry),
    {
        match self.subscriptions.get(user) {
            Some(s) => s.active && now <= s.expiry,
            None => false,
        }
    }
}

} // verus!
