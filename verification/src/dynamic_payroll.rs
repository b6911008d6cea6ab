use vstd::prelude::*;
use crate::arith::{s_add, s_mul, sat_add_u128, sat_mul_u128};
use crate::kv::{kv_has, kv_idx, kv_val, kv_idx_unique};
use crate::smap::StrMap;
use crate::strutil::str_eq_string;

verus! {

/// An employee: a per-second pay rate, the time accrual last ran, whether pay
/// is accruing, and the accrued, unpaid amount.
#[derive(Clone, Copy)]
pub struct Employee {
    pub rate_per_second: u128,
    pub last_update: u64,
    pub active: bool,
    pub accrued: u128,
}

/// The record after accruing pay up to `now`: an active employee earns
/// rate times elapsed seconds; time moves forward either way, never back.
pub open spec fn spec_accrued(e: Employee, now: u64) -> Employee {
    if e.active && now > e.last_update {
        Employee {
            rate_per_second: e.rate_per_second,
            last_update: now,
            active: e.active,
            accrued: s_add(
                e.accrued as int,
                s_mul(e.rate_per_second as int, now - e.last_update),
            ) as u128,
        }
    } else if now > e.last_update {
        Employee { last_update: now, ..e }
    } else {
        e
    }
}

/// A payroll whose employees accrue pay by the second, lazily, whenever they
/// are touched.
pub struct DynamicPayroll {
    pub employer: String,
    pub employees: StrMap<Employee>,
}

impl DynamicPayroll {
    pub open spec fn view(&self) -> Seq<(Seq<char>, Employee)> {
        self.employees@
    }

    pub open spec fn wf(&self) -> bool {
        self.employees.wf()
    }

    pub fn new(employer: String) -> (r: Self)
        ensures
            r.wf(),
            r.employer == employer,
            r@ == Seq::<(Seq<char>, Employee)>::empty(),
    {
        DynamicPayroll { employer, employees: StrMap::new() }
    }

    /// Accrues pay for one employee up to `now`; unknown employees are left
    /// untouched.
    fn accrue(&mut self, employee: &str, now: u64)
        requires
            old(self).wf(),
        ensures
            final(self).wf(),
            final(self).employer == old(self).employer,
            !kv_has(old(self)@, employee@) ==> *final(self) == *old(self),
            kv_has(old(self)@, employee@) ==> final(self)@ == old(self)@.update(
                kv_idx(old(self)@, employee@),
                (employee@, spec_accrued(kv_val(old(self)@, employee@), now)),
            ),
    {
        match self.employees.index_of(employee) {
            Some(i) => {
                let e = *self.employees.val_at(i);
                if e.active && now > e.last_update {
                    let elapsed = now - e.last_update;
                    let e2 = Employee {
                        rate_per_second: e.rate_per_second,
                        last_update: now,
                        active: e.active,
                        accrued: sat_add_u128(
                            e.accrued,
                            sat_mul_u128(e.rate_per_second, elapsed as u128),
                        ),
                    };
                    self.employees.set_val_at(i, e2);
                } else if now > e.last_update {
                    self.employees.set_val_at(i, Employee { last_update: now, ..e });
                } else {
                    proof {
                        assert(self@ =~= old(self)@.update(i as int, (employee@, e)));
                    }
                    self.employees.set_val_at(i, e);
                }
            },
            None => {},
        }
    }

    /// The employer enrols (or re-enrols) an employee at a rate, accruing
    /// from `start_time`, with nothing accrued yet.
    pub fn add_employee(
        &mut self,
        caller: &str,
        employee: String,
        rate_per_second: u128,
        start_time: u64,
    ) -> (r: Result<(), &'static str>)
        requires
            old(self).wf(),
        ensures
            final(self).wf(),
            final(self).employer == old(self).employer,
            caller@ != old(self).employer@ ==> r == Err::<(), &'static str>("only employer")
                && *final(self) == *old(self),
            caller@ == old(self).employer@ && kv_has(old(self)@, employee@) ==> r == Ok::<
                (),
                &'static str,
            >(()) && final(self)@ == old(self)@.update(
                kv_idx(old(self)@, employee@),
                (
                    employee@,
                    (Employee { rate_per_second, last_update: start_time, active: true, accrued: 0 }),
                ),
            ),
            caller@ == old(self).employer@ && !kv_has(old(self)@, employee@) ==> r == Ok::<
                (),
                &'static str,
            >(()) && final(self)@ == old(self)@.push(
                (
                    employee@,
                    (Employee { rate_per_second, last_update: start_time, active: true, accrued: 0 }),
                ),
            ),
    {
        if !str_eq_string(caller, &self.employer) {
            return Err("only employer");
        }
        self.employees.insert(
            employee,
            Employee { rate_per_second, last_update: start_time, active: true, accrued: 0 },
        );
        Ok(())
    }

    /// The employer changes an employee's rate, accruing what the old rate
    /// earned first.
    pub fn update_rate(&mut self, caller: &str, employee: &str, new_rate: u128, now: u64) -> (r:
        Result<(), &'static str>)
        requires
            old(self).wf(),
        ensures
            final(self).wf(),
            final(self).employer == old(self).employer,
            caller@ != old(self).employer@ ==> r == Err::<(), &'static str>("only employer")
                && *final(self) == *old(self),
            caller@ == old(self).employer@ && !kv_has(old(self)@, employee@) ==> r == Err::<
                (),
                &'static str,
            >("unknown") && *final(self) == *old(self),
            caller@ == old(self).employer@ && kv_has(old(self)@, employee@) ==> r == Ok::<
                (),
                &'static str,
            >(()) && final(self)@ == old(self)@.update(
                kv_idx(old(self)@, employee@),
                (
                    employee@,
                    (Employee {
                        rate_per_second: new_rate,
                        ..spec_accrued(kv_val(old(self)@, employee@), now)
                    }),
                ),
            ),
    {
        if !str_eq_string(caller, &self.employer) {
            return Err("only employer");
        }
        self.accrue(employee, now);
        let ghost mid = self@;
        match self.employees.index_of(employee) {
            Some(i) => {
                proof {
                    let j = kv_idx(old(self)@, employee@);
                    assert(mid[j].0 == employee@);
                    kv_idx_unique(mid, employee@, j);
                }
                let e = *self.employees.val_at(i);
                self.employees.set_val_at(i, Employee { rate_per_second: new_rate, ..e });
                proof {
                    assert(self@ =~= old(self)@.update(
                        kv_idx(old(self)@, employee@),
                        (
                            employee@,
                            Employee {
                                rate_per_second: new_rate,
                                ..spec_accrued(kv_val(old(self)@, employee@), now)
                            },
                        ),
                    ));
                }
                Ok(())
            },
            None => {
                proof {
                    if kv_has(old(self)@, employee@) {
                        let j = kv_idx(old(self)@, employee@);
                        assert(self@[j].0 == employee@);
                    }
                }
                Err("unknown")
            },
        }
    }

    /// The employer pauses or resumes an employee's accrual, settling what
    /// was earned first.
    pub fn set_active(&mut self, caller: &str, employee: &str, active: bool, now: u64) -> (r:
        Result<(), &'static str>)
        requires
            old(self).wf(),
        ensures
            final(self).wf(),
            final(self).employer == old(self).employer,
            caller@ != old(self).employer@ ==> r == Err::<(), &'static str>("only employer")
                && *final(self) == *old(self),
            caller@ == old(self).employer@ && !kv_has(old(self)@, employee@) ==> r == Err::<
                (),
                &'static str,
            >("unknown") && *final(self) == *old(self),
            caller@ == old(self).employer@ && kv_has(old(self)@, employee@) ==> r == Ok::<
                (),
                &'static str,
            >(()) && final(self)@ == old(self)@.update(
                kv_idx(old(self)@, employee@),
                (employee@, (Employee { active, ..spec_accrued(kv_val(old(self)@, employee@), now) })),
            ),
    {
        if !str_eq_string(caller, &self.employer) {
            return Err("only employer");
        }
        self.accrue(employee, now);
        let ghost mid = self@;
        match self.employees.index_of(employee) {
            Some(i) => {
                proof {
                    let j = kv_idx(old(self)@, employee@);
                    assert(mid[j].0 == employee@);
                    kv_idx_unique(mid, employee@, j);
                }
                let e = *self.employees.val_at(i);
                self.employees.set_val_at(i, Employee { active, ..e });
                proof {
                    assert(self@ =~= old(self)@.update(
                        kv_idx(old(self)@, employee@),
                        (
                            employee@,
                            Employee { active, ..spec_accrued(kv_val(old(self)@, employee@), now) },
                        ),
                    ));
                }
                Ok(())
            },
            None => {
                proof {
                    if kv_has(old(self)@, employee@) {
                        let j = kv_idx(old(self)@, employee@);
                        assert(self@[j].0 == employee@);
                    }
                }
                Err("unknown")
            },
        }
    }

    /// Settles accrual up to `now` and pays the whole accrued amount out.
    pub fn payout(&mut self, employee: &str, now: u64) -> (r: Result<u128, &'static str>)
        requires
            old(self).wf(),
        ensures
            final(self).wf(),
            final(self).employer == old(self).employer,
            !kv_has(old(self)@, employee@) ==> r == Err::<u128, &'static str>("unknown") && *final(self) == *old(self),
            kv_has(old(self)@, employee@) ==> r == Ok::<u128, &'static str>(
                spec_accrued(kv_val(old(self)@, employee@), now).accrued,
            ) && final(self)@ == old(self)@.update(
                kv_idx(old(self)@, employee@),
                (employee@, (Employee { accrued: 0, ..spec_accrued(kv_val(old(self)@, employee@), now) })),
            ),
    {
        self.accrue(employee, now);
        let ghost mid = self@;
        match self.employees.index_of(employee) {
            Some(i) => {
                proof {
                    let j = kv_idx(old(self)@, employee@);
                    assert(mid[j].0 == employee@);
                    kv_idx_unique(mid, employee@, j);
                }
                let e = *self.employees.val_at(i);
                self.employees.set_val_at(i, Employee { accrued: 0, ..e });
                proof {
                    assert(self@ =~= old(self)@.update(
                        kv_idx(old(self)@, employee@),
                        (
                            employee@,
                            Employee { accrued: 0, ..spec_accrued(kv_val(old(self)@, employee@), now) },
                        ),
                    ));
                }
                Ok(e.accrued)
            },
            None => {
                proof {
                    if kv_has(old(self)@, employee@) {
                        let j = kv_idx(old(self)@, employee@);
                        assert(self@[j].0 == employee@);
                    }
                }
                Err("unknown")
            },
        }
    }
}

} // verus!
