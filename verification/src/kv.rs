use vstd::prelude::*;

verus! {

/// Spec-level helpers for association sequences: a map is modelled as a
/// sequence of key/value pairs whose keys are pairwise distinct.
pub open spec fn kv_has<K, V>(s: Seq<(K, V)>, k: K) -> bool {
    exists|i: int| 0 <= i < s.len() && s[i].0 == k
}

/// The index at which `k` occurs (meaningful only when `kv_has` holds;
/// unique under `kv_unique`).
pub open spec fn kv_idx<K, V>(s: Seq<(K, V)>, k: K) -> int {
    choose|i: int| 0 <= i < s.len() && s[i].0 == k
}

/// The value bound to `k`.
pub open spec fn kv_val<K, V>(s: Seq<(K, V)>, k: K) -> V {
    s[kv_idx(s, k)].1
}

/// All keys of the sequence are pairwise distinct.
pub open spec fn kv_unique<K, V>(s: Seq<(K, V)>) -> bool {
    forall|i: int, j: int| 0 <= i < j < s.len() ==> s[i].0 != s[j].0
}

/// Under `kv_unique`, any index holding `k` is `kv_idx(s, k)`.
pub proof fn kv_idx_unique<K, V>(s: Seq<(K, V)>, k: K, i: int)
    requires
        kv_unique(s),
        0 <= i < s.len(),
        s[i].0 == k,
    ensures
        kv_has(s, k),
        kv_idx(s, k) == i,
{
    assert(kv_has(s, k));
    let j = kv_idx(s, k);
    if i < j {
        assert(s[i].0 != s[j].0);
    } else if j < i {
        assert(s[j].0 != s[i].0);
    }
}

/// Appending a fresh key keeps the keys distinct.
pub proof fn kv_unique_push<K, V>(s: Seq<(K, V)>, k: K, v: V)
    requires
        kv_unique(s),
        !kv_has(s, k),
    ensures
        kv_unique(s.push((k, v))),
{
    let t = s.push((k, v));
    assert forall|i: int, j: int| 0 <= i < j < t.len() implies t[i].0 != t[j].0 by {
        if j < s.len() {
            assert(s[i].0 != s[j].0);
        } else {
            assert(t[j].0 == k);
            assert(t[i].0 == s[i].0);
        }
    }
}

/// Replacing the value at an index, key kept, keeps the keys distinct.
pub proof fn kv_unique_update<K, V>(s: Seq<(K, V)>, i: int, v: V)
    requires
        kv_unique(s),
        0 <= i < s.len(),
    ensures
        kv_unique(s.update(i, (s[i].0, v))),
{
}

/// Removing an entry keeps the keys distinct.
pub proof fn kv_unique_remove<K, V>(s: Seq<(K, V)>, i: int)
    requires
        kv_unique(s),
        0 <= i < s.len(),
    ensures
        kv_unique(s.remove(i)),
{
    let t = s.remove(i);
    assert forall|p: int, q: int| 0 <= p < q < t.len() implies t[p].0 != t[q].0 by {
        let p0: int = if p < i { p } else { p + 1 };
        let q0: int = if q < i { q } else { q + 1 };
        assert(t[p] == s[p0]);
        assert(t[q] == s[q0]);
        assert(s[p0].0 != s[q0].0);
    }
}

} // verus!
