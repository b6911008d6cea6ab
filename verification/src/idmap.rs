use vstd::prelude::*;
use crate::kv::{kv_has, kv_idx, kv_val, kv_unique, kv_idx_unique, kv_unique_push,
    kv_unique_update, kv_unique_remove};

verus! {

/// An association map from numeric identifiers to values, backed by a vector
/// of pairs with pairwise-distinct keys, with exact contracts over its view.
pub struct IdMap<V> {
    entries: Vec<(u64, V)>,
}

impl<V> IdMap<V> {
    /// The abstract contents: keys paired with values, in order.
    pub closed spec fn view(&self) -> Seq<(u64, V)> {
        self.entries@
    }

    /// Keys are pairwise distinct.
    pub open spec fn wf(&self) -> bool {
        kv_unique(self@)
    }

    pub fn new() -> (r: Self)
        ensures
            r@ == Seq::<(u64, V)>::empty(),
            r.wf(),
    {
        let r = IdMap { entries: Vec::new() };
        proof {
            assert(r@ =~= Seq::<(u64, V)>::empty());
        }
        r
    }

    pub fn len(&self) -> (r: usize)
        ensures
            r == self@.len(),
    {
        self.entries.len()
    }

    /// The position of `key`, if it is bound.
    pub fn index_of(&self, key: u64) -> (r: Option<usize>)
        requires
            self.wf(),
        ensures
            match r {
                Some(i) => kv_has(self@, key) && i == kv_idx(self@, key) && i < self@.len()
                    && self@[i as int].0 == key,
                None => !kv_has(self@, key),
            },
    {
        let n: usize = self.entries.len();
        let mut i: usize = 0;
        while i < n
            invariant
                n == self@.len(),
                0 <= i <= n,
                self.wf(),
                forall|j: int| 0 <= j < i ==> self@[j].0 != key,
            decreases n - i,
        {
            if self.entries[i].0 == key {
                proof {
                    kv_idx_unique(self@, key, i as int);
                }
                return Some(i);
            }
            i += 1;
        }
        None
    }

    pub fn contains_key(&self, key: u64) -> (r: bool)
        requires
            self.wf(),
        ensures
            r == kv_has(self@, key),
    {
        self.index_of(key).is_some()
    }

    pub fn get(&self, key: u64) -> (r: Option<&V>)
        requires
            self.wf(),
        ensures
            match r {
                Some(v) => kv_has(self@, key) && *v == kv_val(self@, key),
                None => !kv_has(self@, key),
            },
    {
        match self.index_of(key) {
            Some(i) => Some(&self.entries[i].1),
            None => None,
        }
    }

    /// Binds `key` to `value`: in place where the key is present, appended
    /// otherwise.
    pub fn insert(&mut self, key: u64, value: V)
        requires
            old(self).wf(),
        ensures
            final(self).wf(),
            kv_has(old(self)@, key) ==> final(self)@ == old(self)@.update(
                kv_idx(old(self)@, key),
                (key, value),
            ),
            !kv_has(old(self)@, key) ==> final(self)@ == old(self)@.push((key, value)),
    {
        let ghost pre = self@;
        match self.index_of(key) {
            Some(i) => {
                self.entries[i] = (key, value);
                proof {
                    assert(self@ =~= pre.update(kv_idx(pre, key), (key, value)));
                    assert(pre[kv_idx(pre, key)].0 == key);
                    kv_unique_update(pre, kv_idx(pre, key), value);
                }
            },
            None => {
                self.entries.push((key, value));
                proof {
                    assert(self@ =~= pre.push((key, value)));
                    kv_unique_push(pre, key, value);
                }
            },
        }
    }

    /// Removes the binding of `key`, if any.
    pub fn remove(&mut self, key: u64)
        requires
            old(self).wf(),
        ensures
            final(self).wf(),
            kv_has(old(self)@, key) ==> final(self)@ == old(self)@.remove(kv_idx(old(self)@, key)),
            !kv_has(old(self)@, key) ==> *final(self) == *old(self),
    {
        let ghost pre = self@;
        match self.index_of(key) {
            Some(i) => {
                self.entries.remove(i);
                proof {
                    assert(self@ =~= pre.remove(kv_idx(pre, key)));
                    kv_unique_remove(pre, kv_idx(pre, key));
                }
            },
            None => {},
        }
    }

    pub fn key_at(&self, i: usize) -> (r: u64)
        requires
            i < self@.len(),
        ensures
            r == self@[i as int].0,
    {
        self.entries[i].0
    }

    pub fn val_at(&self, i: usize) -> (r: &V)
        requires
            i < self@.len(),
        ensures
            *r == self@[i as int].1,
    {
        &self.entries[i].1
    }

    /// Replaces the value at position `i`, keeping its key, and hands the old
    /// value back.
    pub fn replace_val_at(&mut self, i: usize, value: V) -> (r: V)
        requires
            old(self).wf(),
            i < old(self)@.len(),
        ensures
            final(self).wf(),
            r == old(self)@[i as int].1,
            final(self)@ == old(self)@.update(i as int, (old(self)@[i as int].0, value)),
    {
        let ghost pre = self@;
        let (key, prior) = self.entries.remove(i);
        self.entries.insert(i, (key, value));
        proof {
            assert(self@ =~= pre.update(i as int, (pre[i as int].0, value)));
            kv_unique_update(pre, i as int, value);
        }
        prior
    }

    /// Replaces the value at position `i`, keeping its key.
    pub fn set_val_at(&mut self, i: usize, value: V)
        requires
            old(self).wf(),
            i < old(self)@.len(),
        ensures
            final(self).wf(),
            final(self)@ == old(self)@.update(i as int, (old(self)@[i as int].0, value)),
    {
        let ghost pre = self@;
        let key: u64 = self.entries[i].0;
        self.entries[i] = (key, value);
        proof {
            assert(self@ =~= pre.update(i as int, (pre[i as int].0, value)));
            kv_unique_update(pre, i as int, value);
        }
    }
}

} // verus!
