use vstd::prelude::*;

verus! {

/// The number of `true` outcomes in `s`.
pub open spec fn count_true(s: Seq<bool>) -> nat
    decreases s.len(),
{
    if s.len() == 0 {
        0
    } else {
        count_true(s.drop_last()) + if s.last() {
            1nat
        } else {
            0nat
        }
    }
}

/// `count / total` as a percentage in hundredths of a percent, rounded to
/// nearest (halves up); 0 for no outcomes at all.
pub open spec fn percent_hundredths(count: int, total: int) -> int {
    if total == 0 {
        0
    } else {
        (count * 10000 + total / 2) / total
    }
}

/// What a report says of a sequence of outcomes.
#[derive(Clone, Copy, Debug, PartialEq, Eq)]
pub struct SimulationSummary<T> {
    pub subject: T,
    pub true_count: usize,
    pub false_count: usize,
    pub total: usize,
    /// The share of `true`, in hundredths of a percent.
    pub true_percent: u64,
    /// The share of `false`, in hundredths of a percent.
    pub false_percent: u64,
}

/// `count / total` in hundredths of a percent, rounded to nearest.
pub fn percent_of(count: usize, total: usize) -> (r: u64)
    requires
        count <= total,
    ensures
        r == percent_hundredths(count as int, total as int),
        r <= 10000,
{
    if total == 0 {
        return 0;
    }
    let numerator: u128 = count as u128 * 10000 + total as u128 / 2;
    let quotient: u128 = numerator / total as u128;
    proof {
        let t = total as int;
        let q = quotient as int;
        let n = numerator as int;
        assert(q * t <= n) by (nonlinear_arith)
            requires
                q == n / t,
                t > 0,
                n >= 0,
        ;
        assert(q <= 10000) by (nonlinear_arith)
            requires
                q * t <= n,
                n <= 10000 * t + t / 2,
                t > 0,
        ;
    }
    quotient as u64
}

/// Reduces a sequence of outcomes to counts and percentages.
pub trait SimulationReport<T> {
    /// `r` is the report of these outcomes for `report_for`.
    spec fn reported(&self, report_for: T, r: SimulationSummary<T>) -> bool;

    /// The report of these outcomes for `report_for`.
    fn report(&self, report_for: T) -> (r: SimulationSummary<T>)
        ensures
            self.reported(report_for, r),
    ;
}

impl<T> SimulationReport<T> for Vec<bool> {
    /// The counts partition the outcomes, and each percentage is its count over
    /// the total.
    open spec fn reported(&self, report_for: T, r: SimulationSummary<T>) -> bool {
        &&& r.subject == report_for
        &&& r.total == self@.len()
        &&& r.true_count == count_true(self@)
        &&& r.false_count == self@.len() - count_true(self@)
        &&& r.true_percent == percent_hundredths(r.true_count as int, r.total as int)
        &&& r.false_percent == percent_hundredths(r.false_count as int, r.total as int)
    }

    fn report(&self, report_for: T) -> (r: SimulationSummary<T>) {
        let mut true_count: usize = 0;
        let mut i: usize = 0;
        while i < self.len()
            invariant
                i <= self@.len(),
                true_count <= i,
                true_count == count_true(self@.take(i as int)),
            decreases self@.len() - i,
        {
            proof {
                assert(self@.take(i + 1).drop_last() =~= self@.take(i as int));
            }
            if self[i] {
                true_count = true_count + 1;
            }
            i = i + 1;
        }
        proof {
            assert(self@.take(self@.len() as int) =~= self@);
        }
        let total = self.len();
        let false_count = total - true_count;
        SimulationSummary {
            subject: report_for,
            true_count,
            false_count,
            total,
            true_percent: percent_of(true_count, total),
            false_percent: percent_of(false_count, total),
        }
    }
}

} // verus!
