use vstd::prelude::*;

verus! {

/// One filed report: who filed it, under which category, its payload, and
/// when.
pub struct Report {
    pub reporter: String,
    pub category: String,
    pub payload: String,
    pub timestamp: u64,
}

/// The reports in `s` filed by `who`, in filing order.
pub open spec fn reports_by_of(s: Seq<Report>, who: Seq<char>) -> Seq<Report>
    decreases s.len(),
{
    if s.len() == 0 {
        Seq::empty()
    } else {
        let rest = reports_by_of(s.drop_last(), who);
        if s.last().reporter@ == who {
            rest.push(s.last())
        } else {
            rest
        }
    }
}

/// The most recent report in `s` under `category`, if any.
pub open spec fn latest_of(s: Seq<Report>, category: Seq<char>) -> Option<Report>
    decreases s.len(),
{
    if s.len() == 0 {
        None
    } else if s.last().category@ == category {
        Some(s.last())
    } else {
        latest_of(s.drop_last(), category)
    }
}

/// An append-only log of regulatory reports.
pub struct RegulatoryReporting {
    pub reports: Vec<Report>,
}

impl RegulatoryReporting {
    pub open spec fn view(&self) -> Seq<Report> {
        self.reports@
    }

    pub fn new() -> (r: Self)
        ensures
            r@ == Seq::<Report>::empty(),
    {
        RegulatoryReporting { reports: Vec::new() }
    }

    /// Appends a report to the log.
    pub fn submit(&mut self, reporter: String, category: String, payload: String, timestamp: u64)
        ensures
            final(self)@ == old(self)@.push(
                (Report { reporter, category, payload, timestamp }),
            ),
    {
        self.reports.push(Report { reporter, category, payload, timestamp });
    }

    /// All reports filed by `reporter`, in filing order.
    pub fn reports_by(&self, reporter: &str) -> (r: Vec<&Report>)
        ensures
            r@.len() == reports_by_of(self@, reporter@).len(),
            forall|j: int| 0 <= j < r@.len() ==> *(#[trigger] r@[j]) == reports_by_of(
                self@,
                reporter@,
            )[j],
    {
        let owned: String = reporter.to_owned();
        let mut result: Vec<&Report> = Vec::new();
        let n: usize = self.reports.len();
        let mut i: usize = 0;
        while i < n
            invariant
                0 <= i <= n,
                n == self@.len(),
                owned@ == reporter@,
                result@.len() == reports_by_of(self@.take(i as int), reporter@).len(),
                forall|j: int| 0 <= j < result@.len() ==> *(#[trigger] result@[j])
                    == reports_by_of(self@.take(i as int), reporter@)[j],
            decreases n - i,
        {
            proof {
                assert(self@.take(i as int + 1).drop_last() =~= self@.take(i as int));
                assert(self@.take(i as int + 1).last() == self@[i as int]);
            }
            let report = &self.reports[i];
            if report.reporter == owned {
                result.push(report);
            }
            i += 1;
        }
        proof {
            assert(self@.take(n as int) =~= self@);
        }
        result
    }

    /// The most recent report under `category`, if any.
    pub fn latest(&self, category: &str) -> (r: Option<&Report>)
        ensures
            match r {
                Some(rep) => latest_of(self@, category@) == Some(*rep),
                None => latest_of(self@, category@) is None,
            },
    {
        let owned: String = category.to_owned();
        let n: usize = self.reports.len();
        let mut i: usize = n;
        proof {
            assert(self@.take(n as int) =~= self@);
        }
        while i > 0
            invariant
                0 <= i <= n,
                n == self@.len(),
                owned@ == category@,
                latest_of(self@, category@) == latest_of(self@.take(i as int), category@),
            decreases i,
        {
            proof {
                assert(self@.take(i as int).drop_last() =~= self@.take(i as int - 1));
                assert(self@.take(i as int).last() == self@[i as int - 1]);
            }
            let report = &self.reports[i - 1];
            if report.category == owned {
                return Some(report);
            }
            i -= 1;
        }
        proof {
            assert(self@.take(0) =~= Seq::<Report>::empty());
        }
        None
    }
}

} // verus!
