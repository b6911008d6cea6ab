use vstd::prelude::*;
use crate::arith::{s_add, s_sub, sat_add_u128, sat_sub_u128};
use crate::kv::{kv_has, kv_idx, kv_val};
use crate::smap::StrMap;
use crate::strutil::str_eq_string;

verus! {

/// A budget category: what was allocated to it and what was spent from it.
#[derive(Clone, Copy)]
pub struct BudgetLine {
    pub allocated: u128,
    pub spent: u128,
}

/// What is left of a budget line.
pub open spec fn spec_remaining(line: BudgetLine) -> int {
    s_sub(line.allocated as int, line.spent as int)
}

impl BudgetLine {
    /// What is left of this line: its allocation less its spending, floored
    /// at zero.
    pub fn remaining(&self) -> (r: u128)
        ensures
            r == spec_remaining(*self),
    {
        sat_sub_u128(self.allocated, self.spent)
    }
}

/// A treasury budget: an authority allocates value to named categories, and
/// spending draws each category down, never past its allocation.
pub struct GovTreasuryBudget {
    pub authority: String,
    pub categories: StrMap<BudgetLine>,
}

impl GovTreasuryBudget {
    pub open spec fn view(&self) -> Seq<(Seq<char>, BudgetLine)> {
        self.categories@
    }

    pub open spec fn wf(&self) -> bool {
        self.categories.wf()
    }

    pub fn new(authority: String) -> (r: Self)
        ensures
            r.wf(),
            r.authority == authority,
            r@ == Seq::<(Seq<char>, BudgetLine)>::empty(),
    {
        GovTreasuryBudget { authority, categories: StrMap::new() }
    }

    /// The authority grows a category's allocation, creating it if needed.
    pub fn allocate(&mut self, caller: &str, category: String, amount: u128) -> (r: Result<
        (),
        &'static str,
    >)
        requires
            old(self).wf(),
        ensures
            final(self).wf(),
            caller@ != old(self).authority@ ==> r == Err::<(), &'static str>("only authority")
                && *final(self) == *old(self),
            caller@ == old(self).authority@ && kv_has(old(self)@, category@) ==> r == Ok::<
                (),
                &'static str,
            >(()) && final(self)@ == old(self)@.update(
                kv_idx(old(self)@, category@),
                (
                    category@,
                    (BudgetLine {
                        allocated: s_add(
                            kv_val(old(self)@, category@).allocated as int,
                            amount as int,
                        ) as u128,
                        spent: kv_val(old(self)@, category@).spent,
                    }),
                ),
            ),
            caller@ == old(self).authority@ && !kv_has(old(self)@, category@) ==> r == Ok::<
                (),
                &'static str,
            >(()) && final(self)@ == old(self)@.push(
                (category@, (BudgetLine { allocated: amount, spent: 0 })),
            ),
    {
        if !str_eq_string(caller, &self.authority) {
            return Err("only authority");
        }
        match self.categories.index_of(category.as_str()) {
            Some(i) => {
                let line = *self.categories.val_at(i);
                self.categories.set_val_at(
                    i,
                    BudgetLine { allocated: sat_add_u128(line.allocated, amount), spent: line.spent },
                );
            },
            None => {
                self.categories.insert(category, BudgetLine { allocated: amount, spent: 0 });
            },
        }
        Ok(())
    }

    /// Spends from a category; an unknown category, or spending past what is
    /// left, fails and changes nothing.
    pub fn spend(&mut self, category: &str, amount: u128) -> (r: Result<(), &'static str>)
        requires
            old(self).wf(),
        ensures
            final(self).wf(),
            !kv_has(old(self)@, category@) ==> r == Err::<(), &'static str>("unknown") && *final(self) == *old(self),
            kv_has(old(self)@, category@) && spec_remaining(kv_val(old(self)@, category@))
                < amount ==> r == Err::<(), &'static str>("insufficient allocation") && *final(self) == *old(self),
            kv_has(old(self)@, category@) && spec_remaining(kv_val(old(self)@, category@))
                >= amount ==> r == Ok::<(), &'static str>(()) && final(self)@ == old(self)@.update(
                kv_idx(old(self)@, category@),
                (
                    category@,
                    (BudgetLine {
                        allocated: kv_val(old(self)@, category@).allocated,
                        spent: s_add(
                            kv_val(old(self)@, category@).spent as int,
                            amount as int,
                        ) as u128,
                    }),
                ),
            ),
    {
        match self.categories.index_of(category) {
            Some(i) => {
                let line = *self.categories.val_at(i);
                if line.remaining() < amount {
                    return Err("insufficient allocation");
                }
                self.categories.set_val_at(
                    i,
                    BudgetLine { allocated: line.allocated, spent: sat_add_u128(line.spent, amount) },
                );
                Ok(())
            },
            None => Err("unknown"),
        }
    }

    /// What is left of a category, or nothing for an unknown one.
    pub fn remaining(&self, category: &str) -> (r: Option<u128>)
        requires
            self.wf(),
        ensures
            match r {
                Some(v) => kv_has(self@, category@) && v == spec_remaining(
                    kv_val(self@, category@),
                ),
                None => !kv_has(self@, category@),
            },
    {
        match self.categories.get(category) {
            Some(line) => Some(line.remaining()),
            None => None,
        }
    }
}

} // verus!
