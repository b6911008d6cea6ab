use vstd::prelude::*;

verus! {

/// All elements of the sequence are pairwise distinct.
pub open spec fn distinct<T>(s: Seq<T>) -> bool {
    forall|i: int, j: int| 0 <= i < j < s.len() ==> s[i] != s[j]
}

/// Under `distinct`, any index holding `x` is unique; names it.
pub proof fn distinct_idx<T>(s: Seq<T>, x: T, i: int)
    requires
        distinct(s),
        0 <= i < s.len(),
        s[i] == x,
    ensures
        s.contains(x),
        s.index_of(x) == i,
{
    assert(s.contains(x));
    let j = s.index_of(x);
    if i < j {
        assert(s[i] != s[j]);
    } else if j < i {
        assert(s[j] != s[i]);
    }
}

/// A set of account names, backed by a vector of pairwise-distinct strings,
/// with exact contracts over its view.
pub struct StrSet {
    items: Vec<String>,
}

impl StrSet {
    /// The abstract contents: the member views, in insertion order.
    pub closed spec fn view(&self) -> Seq<Seq<char>> {
        Seq::new(self.items@.len(), |i: int| self.items@[i]@)
    }

    pub open spec fn wf(&self) -> bool {
        distinct(self@)
    }

    pub fn new() -> (r: Self)
        ensures
            r@ == Seq::<Seq<char>>::empty(),
            r.wf(),
    {
        let r = StrSet { items: Vec::new() };
        proof {
            assert(r@ =~= Seq::<Seq<char>>::empty());
        }
        r
    }

    pub fn len(&self) -> (r: usize)
        ensures
            r == self@.len(),
    {
        self.items.len()
    }

    pub fn index_of(&self, item: &str) -> (r: Option<usize>)
        requires
            self.wf(),
        ensures
            match r {
                Some(i) => self@.contains(item@) && i == self@.index_of(item@) && i < self@.len()
                    && self@[i as int] == item@,
                None => !self@.contains(item@),
            },
    {
        let owned: String = item.to_owned();
        let n: usize = self.items.len();
        let mut i: usize = 0;
        while i < n
            invariant
                n == self@.len(),
                0 <= i <= n,
                owned@ == item@,
                self.wf(),
                forall|j: int| 0 <= j < i ==> self@[j] != item@,
            decreases n - i,
        {
            if self.items[i] == owned {
                proof {
                    distinct_idx(self@, item@, i as int);
                }
                return Some(i);
            }
            i += 1;
        }
        None
    }

    pub fn contains(&self, item: &str) -> (r: bool)
        requires
            self.wf(),
        ensures
            r == self@.contains(item@),
    {
        self.index_of(item).is_some()
    }

    /// Adds `item`; says whether it was new.
    pub fn insert(&mut self, item: String) -> (r: bool)
        requires
            old(self).wf(),
        ensures
            final(self).wf(),
            r == !old(self)@.contains(item@),
            old(self)@.contains(item@) ==> *final(self) == *old(self),
            !old(self)@.contains(item@) ==> final(self)@ == old(self)@.push(item@),
    {
        let ghost pre = self@;
        match self.index_of(item.as_str()) {
            Some(_) => false,
            None => {
                self.items.push(item);
                proof {
                    assert(self@ =~= pre.push(item@));
                    assert forall|i: int, j: int| 0 <= i < j < self@.len() implies self@[i]
                        != self@[j] by {
                        if j < pre.len() {
                            assert(pre[i] != pre[j]);
                        } else {
                            assert(self@[j] == item@);
                            assert(self@[i] == pre[i]);
                        }
                    }
                }
                true
            },
        }
    }

    /// Removes `item`, if present.
    pub fn remove(&mut self, item: &str)
        requires
            old(self).wf(),
        ensures
            final(self).wf(),
            old(self)@.contains(item@) ==> final(self)@ == old(self)@.remove(
                old(self)@.index_of(item@),
            ),
            !old(self)@.contains(item@) ==> *final(self) == *old(self),
            !final(self)@.contains(item@),
    {
        let ghost pre = self@;
        match self.index_of(item) {
            Some(i) => {
                self.items.remove(i);
                proof {
                    let k = pre.index_of(item@);
                    assert(self@ =~= pre.remove(k));
                    assert forall|p: int, q: int| 0 <= p < q < self@.len() implies self@[p]
                        != self@[q] by {
                        let p0: int = if p < k { p } else { p + 1 };
                        let q0: int = if q < k { q } else { q + 1 };
                        assert(self@[p] == pre[p0]);
                        assert(self@[q] == pre[q0]);
                        assert(pre[p0] != pre[q0]);
                    }
                    assert forall|p: int| 0 <= p < self@.len() implies self@[p] != item@ by {
                        let p0: int = if p < k { p } else { p + 1 };
                        assert(self@[p] == pre[p0]);
                        if p0 != k {
                            distinct_idx(pre, pre[p0], p0);
                        }
                    }
                }
            },
            None => {},
        }
    }

    pub fn clear(&mut self)
        ensures
            final(self)@ == Seq::<Seq<char>>::empty(),
            final(self).wf(),
    {
        self.items = Vec::new();
        proof {
            assert(self@ =~= Seq::<Seq<char>>::empty());
        }
    }

    pub fn item_at(&self, i: usize) -> (r: &String)
        requires
            i < self@.len(),
        ensures
            r@ == self@[i as int],
    {
        &self.items[i]
    }
}

/// A set of numeric identifiers, backed by a vector of pairwise-distinct
/// values, with exact contracts over its view.
pub struct U64Set {
    items: Vec<u64>,
}

impl U64Set {
    pub closed spec fn view(&self) -> Seq<u64> {
        self.items@
    }

    pub open spec fn wf(&self) -> bool {
        distinct(self@)
    }

    pub fn new() -> (r: Self)
        ensures
            r@ == Seq::<u64>::empty(),
            r.wf(),
    {
        U64Set { items: Vec::new() }
    }

    pub fn len(&self) -> (r: usize)
        ensures
            r == self@.len(),
    {
        self.items.len()
    }

    pub fn index_of(&self, item: u64) -> (r: Option<usize>)
        requires
            self.wf(),
        ensures
            match r {
                Some(i) => self@.contains(item) && i == self@.index_of(item) && i < self@.len()
                    && self@[i as int] == item,
                None => !self@.contains(item),
            },
    {
        let n: usize = self.items.len();
        let mut i: usize = 0;
        while i < n
            invariant
                n == self@.len(),
                0 <= i <= n,
                self.wf(),
                forall|j: int| 0 <= j < i ==> self@[j] != item,
            decreases n - i,
        {
            if self.items[i] == item {
                proof {
                    distinct_idx(self@, item, i as int);
                }
                return Some(i);
            }
            i += 1;
        }
        None
    }

    pub fn contains(&self, item: u64) -> (r: bool)
        requires
            self.wf(),
        ensures
            r == self@.contains(item),
    {
        self.index_of(item).is_some()
    }

    /// Adds `item`; says whether it was new.
    pub fn insert(&mut self, item: u64) -> (r: bool)
        requires
            old(self).wf(),
        ensures
            final(self).wf(),
            r == !old(self)@.contains(item),
            old(self)@.contains(item) ==> *final(self) == *old(self),
            !old(self)@.contains(item) ==> final(self)@ == old(self)@.push(item),
    {
        let ghost pre = self@;
        match self.index_of(item) {
            Some(_) => false,
            None => {
                self.items.push(item);
                proof {
                    assert forall|i: int, j: int| 0 <= i < j < self@.len() implies self@[i]
                        != self@[j] by {
                        if j < pre.len() {
                            assert(pre[i] != pre[j]);
                        }
                    }
                }
                true
            },
        }
    }

    /// Removes `item`, if present.
    pub fn remove(&mut self, item: u64)
        requires
            old(self).wf(),
        ensures
            final(self).wf(),
            old(self)@.contains(item) ==> final(self)@ == old(self)@.remove(
                old(self)@.index_of(item),
            ),
            !old(self)@.contains(item) ==> *final(self) == *old(self),
            !final(self)@.contains(item),
    {
        let ghost pre = self@;
        match self.index_of(item) {
            Some(i) => {
                self.items.remove(i);
                proof {
                    let k = pre.index_of(item);
                    assert forall|p: int, q: int| 0 <= p < q < self@.len() implies self@[p]
                        != self@[q] by {
                        let p0: int = if p < k { p } else { p + 1 };
                        let q0: int = if q < k { q } else { q + 1 };
                        assert(self@[p] == pre[p0]);
                        assert(self@[q] == pre[q0]);
                    }
                    assert forall|p: int| 0 <= p < self@.len() implies self@[p] != item by {
                        let p0: int = if p < k { p } else { p + 1 };
                        assert(self@[p] == pre[p0]);
                        if p0 != k {
                            distinct_idx(pre, pre[p0], p0);
                        }
                    }
                }
            },
            None => {},
        }
    }
}

} // verus!
