use vstd::prelude::*;
use crate::arith::{s_add, s_mul, s_sub, sat_add_u128, sat_mul_u128, sat_sub_u128, min_u128};
use crate::balances::{credit, spec_credit};
use crate::kv::{kv_has, kv_idx, kv_val, kv_idx_unique};
use crate::smap::StrMap;

verus! {

/// `r` is the integer square root of `v`: the largest integer whose square
/// does not exceed `v`.
pub open spec fn is_sqrt(v: int, r: int) -> bool {
    r >= 0 && r * r <= v && (r + 1) * (r + 1) > v
}

/// The integer square root, as a function.
pub open spec fn spec_isqrt(v: int) -> int {
    choose|r: int| is_sqrt(v, r)
}

/// The integer square root is unique.
pub proof fn lemma_isqrt_unique(v: int, r1: int, r2: int)
    requires
        is_sqrt(v, r1),
        is_sqrt(v, r2),
    ensures
        r1 == r2,
{
    if r1 < r2 {
        assert((r1 + 1) * (r1 + 1) <= r2 * r2) by (nonlinear_arith)
            requires
                0 <= r1 < r2,
        ;
    } else if r2 < r1 {
        assert((r2 + 1) * (r2 + 1) <= r1 * r1) by (nonlinear_arith)
            requires
                0 <= r2 < r1,
        ;
    }
}

/// Newton's method for the integer square root.
fn integer_sqrt(value: u128) -> (r: u128)
    requires
        value < u128::MAX,
    ensures
        is_sqrt(value as int, r as int),
        r == spec_isqrt(value as int),
{
    if value == 0 {
        proof {
            assert(is_sqrt(0, 0));
            lemma_isqrt_unique(0, 0, spec_isqrt(0));
        }
        return 0;
    }
    let v = value;
    let mut x0: u128 = v;
    proof {
        assert((v + 1) * (v + 1) > v) by (nonlinear_arith)
            requires
                v >= 1,
        ;
        lemma_newton_bound(v as int, v as int);
    }
    let mut x1: u128 = (x0 + v / x0) / 2;
    proof {
        lemma_newton_invariant(v as int, v as int, x1 as int);
    }
    while x1 < x0
        invariant
            1 <= x0 <= v,
            v >= 1,
            v < u128::MAX,
            (x0 + 1) * (x0 + 1) > v,
            x1 == (x0 + v as int / x0 as int) / 2,
            x1 >= 1,
            (x1 + 1) * (x1 + 1) > v,
        decreases x0,
    {
        x0 = x1;
        proof {
            lemma_newton_bound(v as int, x0 as int);
        }
        x1 = (x0 + v / x0) / 2;
        proof {
            lemma_newton_invariant(v as int, x0 as int, x1 as int);
        }
    }
    proof {
        let q = v as int / x0 as int;
        vstd::arithmetic::div_mod::lemma_fundamental_div_mod(v as int, x0 as int);
        vstd::arithmetic::div_mod::lemma_mod_division_less_than_divisor(v as int, x0 as int);
        assert(2 * x1 <= x0 + q < 2 * x1 + 2);
        assert(q >= x0);
        assert(x0 * q <= v);
        assert(x0 * x0 <= x0 * q) by (nonlinear_arith)
            requires
                x0 >= 1,
                q >= x0,
        ;
        assert(is_sqrt(v as int, x0 as int));
        lemma_isqrt_unique(v as int, x0 as int, spec_isqrt(v as int));
    }
    x0
}

/// For 1 <= x <= v, one Newton step stays inside the domain:
/// x + v/x <= v + 1.
proof fn lemma_newton_bound(v: int, x: int)
    requires
        1 <= x <= v,
    ensures
        x + v / x <= v + 1,
        v / x >= 0,
{
    let q = v / x;
    vstd::arithmetic::div_mod::lemma_fundamental_div_mod(v, x);
    vstd::arithmetic::div_mod::lemma_mod_division_less_than_divisor(v, x);
    assert(x * q <= v);
    vstd::arithmetic::div_mod::lemma_div_pos_is_pos(v, x);
    if q >= 1 {
        assert(x + q <= x * q + 1) by (nonlinear_arith)
            requires
                x >= 1,
                q >= 1,
        ;
    }
}

/// For 1 <= x <= v, one Newton step x' = (x + v/x) / 2 keeps the upper-bound
/// invariant (x' + 1)^2 > v, stays at least 1, and stays at most v.
proof fn lemma_newton_invariant(v: int, x: int, x1: int)
    requires
        1 <= x <= v,
        x1 == (x + v / x) / 2,
    ensures
        (x1 + 1) * (x1 + 1) > v,
        1 <= x1 <= v,
{
    let q = v / x;
    vstd::arithmetic::div_mod::lemma_fundamental_div_mod(v, x);
    vstd::arithmetic::div_mod::lemma_mod_division_less_than_divisor(v, x);
    assert(x * q <= v);
    assert(v < x * (q + 1)) by (nonlinear_arith)
        requires
            v == x * q + v % x,
            v % x < x,
    ;
    vstd::arithmetic::div_mod::lemma_div_pos_is_pos(v, x);
    vstd::arithmetic::div_mod::lemma_fundamental_div_mod(x + q, 2);
    vstd::arithmetic::div_mod::lemma_mod_division_less_than_divisor(x + q, 2);
    assert(2 * x1 <= x + q < 2 * x1 + 2);
    // AM-GM: (x + q + 1)^2 >= 4 x (q + 1) > 4 v, so (2 x1 + 2)^2 > 4 v.
    assert((x + q + 1) * (x + q + 1) >= 4 * (x * (q + 1))) by (nonlinear_arith)
        requires
            x >= 0,
            q >= 0,
    ;
    assert((2 * x1 + 2) * (2 * x1 + 2) >= (x + q + 1) * (x + q + 1)) by (nonlinear_arith)
        requires
            2 * x1 + 2 >= x + q + 1 >= 0,
    ;
    assert(4 * ((x1 + 1) * (x1 + 1)) == (2 * x1 + 2) * (2 * x1 + 2)) by (nonlinear_arith);
    assert((x1 + 1) * (x1 + 1) > v);
    // Lower bound: the step never reaches 0.
    if x == 1 {
        assert(q == v) by {
            vstd::arithmetic::div_mod::lemma_div_by_multiple(v, 1);
        }
        assert(x1 >= 1);
    } else {
        assert(x1 >= 1);
    }
    // Upper bound: x + q <= v + 1, so x1 <= (v + 1) / 2 <= v.
    if q >= 1 {
        assert(x + q <= x * q + 1) by (nonlinear_arith)
            requires
                x >= 1,
                q >= 1,
        ;
    }
    assert(2 * x1 <= v + 1);
}

/// A funded project: its name, per-contributor amounts, and the matching
/// funds awarded at finalisation.
pub struct Project {
    pub name: String,
    pub contributions: StrMap<u128>,
    pub matching_awarded: u128,
}

/// The sum of all contributions.
pub open spec fn sum_amounts(s: Seq<(Seq<char>, u128)>) -> int
    decreases s.len(),
{
    if s.len() == 0 {
        0
    } else {
        s_add(sum_amounts(s.drop_last()), s.last().1 as int)
    }
}

/// The sum of the integer square roots of all contributions.
pub open spec fn sum_sqrts(s: Seq<(Seq<char>, u128)>) -> int
    decreases s.len(),
{
    if s.len() == 0 {
        0
    } else {
        s_add(sum_sqrts(s.drop_last()), spec_isqrt(s.last().1 as int))
    }
}

/// The quadratic match a contribution profile earns against a pool: the
/// squared sum of square roots, less the plain sum, capped by the pool.
pub open spec fn award_of(s: Seq<(Seq<char>, u128)>, pool: u128) -> int {
    let potential = s_mul(sum_sqrts(s), sum_sqrts(s));
    let match_amount = s_sub(potential, sum_amounts(s));
    if match_amount < pool {
        match_amount
    } else {
        pool as int
    }
}

/// A quadratic-funding round: contributions accumulate per project, and
/// finalisation awards each project its quadratic match out of a shared pool.
pub struct QuadraticFunding {
    pub projects: StrMap<Project>,
    pub matching_pool: u128,
}

impl QuadraticFunding {
    pub open spec fn wf(&self) -> bool {
        &&& self.projects.wf()
        &&& forall|i: int| 0 <= i < self.projects@.len()
            ==> (#[trigger] self.projects@[i]).1.contributions.wf()
    }

    pub fn new() -> (r: Self)
        ensures
            r.wf(),
            r.projects@ == Seq::<(Seq<char>, Project)>::empty(),
            r.matching_pool == 0,
    {
        QuadraticFunding { projects: StrMap::new(), matching_pool: 0 }
    }

    /// Registers (or resets) a project with no contributions.
    pub fn add_project(&mut self, id: String, name: String)
        requires
            old(self).wf(),
        ensures
            final(self).wf(),
            final(self).matching_pool == old(self).matching_pool,
            kv_has(old(self).projects@, id@) ==> final(self).projects@ == old(self).projects@.update(
                kv_idx(old(self).projects@, id@),
                (id@, final(self).projects@[kv_idx(old(self).projects@, id@)].1),
            ) && final(self).projects@[kv_idx(old(self).projects@, id@)].1.name == name && final(self).projects@[kv_idx(old(self).projects@, id@)].1.contributions@ == Seq::<
                (Seq<char>, u128),
            >::empty() && final(self).projects@[kv_idx(old(self).projects@, id@)].1.matching_awarded
                == 0,
            !kv_has(old(self).projects@, id@) ==> final(self).projects@ == old(self).projects@.push((id@, final(self).projects@.last().1)) && final(self).projects@.last().1.name == name && final(self).projects@.last().1.contributions@
                == Seq::<(Seq<char>, u128)>::empty() && final(self).projects@.last().1.matching_awarded == 0,
    {
        self.projects.insert(
            id,
            Project { name, contributions: StrMap::new(), matching_awarded: 0 },
        );
        proof {
            if kv_has(old(self).projects@, id@) {
                kv_idx_unique(
                    old(self).projects@,
                    self.projects@[kv_idx(old(self).projects@, id@)].0,
                    kv_idx(old(self).projects@, id@),
                );
            }
        }
    }

    /// Adds a contribution to a project, accumulating per contributor.
    pub fn contribute(&mut self, id: &str, contributor: String, amount: u128) -> (r: Result<
        (),
        &'static str,
    >)
        requires
            old(self).wf(),
        ensures
            final(self).wf(),
            final(self).matching_pool == old(self).matching_pool,
            !kv_has(old(self).projects@, id@) ==> r == Err::<(), &'static str>("unknown")
                && *final(self) == *old(self),
            kv_has(old(self).projects@, id@) ==> r == Ok::<(), &'static str>(()) && final(self).projects@ == old(self).projects@.update(
                kv_idx(old(self).projects@, id@),
                (id@, kv_val(final(self).projects@, id@)),
            ) && kv_val(final(self).projects@, id@).contributions@ == spec_credit(
                kv_val(old(self).projects@, id@).contributions@,
                contributor@,
                amount,
            ) && kv_val(final(self).projects@, id@).name == kv_val(
                old(self).projects@,
                id@,
            ).name && kv_val(final(self).projects@, id@).matching_awarded == kv_val(
                old(self).projects@,
                id@,
            ).matching_awarded,
    {
        match self.projects.index_of(id) {
            Some(i) => {
                let placeholder = Project {
                    name: String::new(),
                    contributions: StrMap::new(),
                    matching_awarded: 0,
                };
                let mut project = self.projects.replace_val_at(i, placeholder);
                credit(&mut project.contributions, contributor, amount);
                self.projects.set_val_at(i, project);
                proof {
                    kv_idx_unique(self.projects@, id@, i as int);
                }
                Ok(())
            },
            None => Err("unknown"),
        }
    }

    /// Grows the shared matching pool.
    pub fn add_matching_funds(&mut self, amount: u128)
        requires
            old(self).wf(),
        ensures
            final(self).wf(),
            final(self).projects@ == old(self).projects@,
            final(self).matching_pool == s_add(old(self).matching_pool as int, amount as int),
    {
        self.matching_pool = sat_add_u128(self.matching_pool, amount);
    }

    /// Awards a project its quadratic match — the squared sum of the square
    /// roots of its contributions, less their plain sum — capped by what the
    /// pool still holds; the pool shrinks by the award.
    pub fn finalize(&mut self, id: &str) -> (r: Result<u128, &'static str>)
        requires
            old(self).wf(),
            kv_has(old(self).projects@, id@) ==> forall|j: int|
                0 <= j < kv_val(old(self).projects@, id@).contributions@.len()
                    ==> (#[trigger] kv_val(old(self).projects@, id@).contributions@[j]).1
                    < u128::MAX,
        ensures
            final(self).wf(),
            !kv_has(old(self).projects@, id@) ==> r == Err::<u128, &'static str>("unknown")
                && *final(self) == *old(self),
            kv_has(old(self).projects@, id@) ==> ({
                let contributions = kv_val(old(self).projects@, id@).contributions@;
                let awarded = award_of(contributions, old(self).matching_pool);
                &&& r == Ok::<u128, &'static str>(awarded as u128)
                &&& final(self).matching_pool == s_sub(old(self).matching_pool as int, awarded)
                &&& final(self).projects@ == old(self).projects@.update(
                    kv_idx(old(self).projects@, id@),
                    (id@, kv_val(final(self).projects@, id@)),
                )
                &&& kv_val(final(self).projects@, id@).matching_awarded == awarded
                &&& kv_val(final(self).projects@, id@).contributions@ == contributions
                &&& kv_val(final(self).projects@, id@).name == kv_val(
                    old(self).projects@,
                    id@,
                ).name
            }),
    {
        match self.projects.index_of(id) {
            Some(i) => {
                let placeholder = Project {
                    name: String::new(),
                    contributions: StrMap::new(),
                    matching_awarded: 0,
                };
                let mut project = self.projects.replace_val_at(i, placeholder);
                let ghost snap = *self;
                let ghost cs = project.contributions@;
                let n: usize = project.contributions.len();
                let mut sum_sqrt: u128 = 0;
                let mut total: u128 = 0;
                let mut k: usize = 0;
                proof {
                    assert(cs == kv_val(old(self).projects@, id@).contributions@);
                    assert(cs.take(0) =~= Seq::<(Seq<char>, u128)>::empty());
                }
                while k < n
                    invariant
                        0 <= k <= n,
                        *self == snap,
                        project.contributions@ == cs,
                        project.contributions.wf(),
                        n == cs.len(),
                        forall|j: int| 0 <= j < cs.len() ==> (#[trigger] cs[j]).1 < u128::MAX,
                        sum_sqrt == sum_sqrts(cs.take(k as int)),
                        total == sum_amounts(cs.take(k as int)),
                    decreases n - k,
                {
                    proof {
                        assert(cs.take(k as int + 1).drop_last() =~= cs.take(k as int));
                        assert(cs.take(k as int + 1).last() == cs[k as int]);
                    }
                    let amount = *project.contributions.val_at(k);
                    let root = integer_sqrt(amount);
                    sum_sqrt = sat_add_u128(sum_sqrt, root);
                    total = sat_add_u128(total, amount);
                    k += 1;
                }
                proof {
                    assert(cs.take(n as int) =~= cs);
                }
                let potential = sat_mul_u128(sum_sqrt, sum_sqrt);
                let match_amount = sat_sub_u128(potential, total);
                let awarded = min_u128(match_amount, self.matching_pool);
                self.matching_pool = sat_sub_u128(self.matching_pool, awarded);
                project.matching_awarded = awarded;
                self.projects.set_val_at(i, project);
                proof {
                    kv_idx_unique(self.projects@, id@, i as int);
                }
                Ok(awarded)
            },
            None => Err("unknown"),
        }
    }
}

} // verus!
