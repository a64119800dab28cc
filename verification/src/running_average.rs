//! A running average over a window of the latest samples.

use vstd::prelude::*;

verus! {

/// The sum of a sequence of samples.
pub open spec fn sum_of(values: Seq<u64>) -> int
    decreases values.len(),
{
    if values.len() == 0 {
        0
    } else {
        sum_of(values.drop_last()) + values.last()
    }
}

/// Replacing one sample changes the sum by the difference of the two.
pub proof fn lemma_sum_of_update(values: Seq<u64>, i: int, value: u64)
    requires
        0 <= i < values.len(),
    ensures
        sum_of(values.update(i, value)) == sum_of(values) - values[i] + value,
    decreases values.len(),
{
    let updated = values.update(i, value);
    if i == values.len() - 1 {
        assert(updated.drop_last() =~= values.drop_last());
    } else {
        lemma_sum_of_update(values.drop_last(), i, value);
        assert(updated.drop_last() =~= values.drop_last().update(i, value));
    }
}

/// A sum of samples is at most the largest sample times their number.
pub proof fn lemma_sum_of_bound(values: Seq<u64>)
    ensures
        0 <= sum_of(values) <= values.len() * u64::MAX,
    decreases values.len(),
{
    if values.len() > 0 {
        lemma_sum_of_bound(values.drop_last());
        assert(values.len() * u64::MAX == (values.len() - 1) * u64::MAX + u64::MAX)
            by (nonlinear_arith);
    }
}

/// The average of the latest `N` samples. Before `N` samples have come, the
/// missing ones count as zero.
pub struct RunningAverage<const N: usize> {
    values: [u64; N],
    index: usize,
    sum: u128,
}

impl<const N: usize> RunningAverage<N> {
    /// The window: the latest `N` samples. Which of them came first is read
    /// off `cursor`.
    pub closed spec fn window(&self) -> Seq<u64> {
        self.values@
    }

    /// The place in the window that the next sample takes.
    pub closed spec fn cursor(&self) -> int {
        self.index as int
    }

    /// The window is full-sized, the cursor lies in it, and the running sum
    /// is the sum of the window.
    pub closed spec fn well_formed(&self) -> bool {
        &&& N > 0
        &&& self.index < N
        &&& self.sum == sum_of(self.values@)
    }

    /// A window of `N` zeros.
    pub fn new() -> (avg: Self)
        requires
            N > 0,
        ensures
            avg.well_formed(),
            avg.window() == Seq::new(N as nat, |i: int| 0u64),
            avg.cursor() == 0,
    {
        let avg = RunningAverage { values: [0u64;N], index: 0, sum: 0 };
        proof {
            assert(avg.values@ =~= Seq::new(N as nat, |i: int| 0u64));
            lemma_sum_of_zeros(N as nat);
        }
        avg
    }

    /// Puts `value` in the place of the oldest sample.
    pub fn add(&mut self, value: u64)
        requires
            old(self).well_formed(),
        ensures
            final(self).well_formed(),
            final(self).window() == old(self).window().update(old(self).cursor(), value),
            final(self).cursor() == (old(self).cursor() + 1) % (N as int),
    {
        proof {
            lemma_sum_of_update(self.values@, self.index as int, value);
            lemma_sum_of_bound(self.values@);
            lemma_sum_of_bound(self.values@.update(self.index as int, value));
            lemma_sum_of_update(self.values@, self.index as int, 0u64);
            lemma_sum_of_bound(self.values@.update(self.index as int, 0u64));
            assert(N * u64::MAX <= usize::MAX * u64::MAX) by (nonlinear_arith)
                requires
                    N <= usize::MAX,
            ;
        }
        let old_value: u64 = self.values[self.index];
        self.sum = self.sum - old_value as u128 + value as u128;
        self.values[self.index] = value;
        self.index = (self.index + 1) % N;
    }

    /// The sum of the window divided by `N`, rounded down.
    pub fn average(&self) -> (mean: u64)
        requires
            self.well_formed(),
        ensures
            mean == sum_of(self.window()) / (N as int),
    {
        proof {
            lemma_sum_of_bound(self.values@);
            assert(sum_of(self.values@) / (N as int) <= u64::MAX) by (nonlinear_arith)
                requires
                    N > 0,
                    0 <= sum_of(self.values@) <= N * u64::MAX,
            ;
        }
        (self.sum / N as u128) as u64
    }
}

/// A window of zeros sums to zero.
proof fn lemma_sum_of_zeros(n: nat)
    ensures
        sum_of(Seq::new(n, |i: int| 0u64)) == 0,
    decreases n,
{
    if n > 0 {
        lemma_sum_of_zeros((n - 1) as nat);
        assert(Seq::new(n, |i: int| 0u64).drop_last() =~= Seq::new((n - 1) as nat, |i: int| 0u64));
    }
}

/// The average never exceeds the largest sample, nor falls below the
/// smallest.
pub proof fn lemma_average_within_samples(values: Seq<u64>, low: u64, high: u64)
    requires
        values.len() > 0,
        forall|i: int| 0 <= i < values.len() ==> low <= #[trigger] values[i] <= high,
    ensures
        low <= sum_of(values) / (values.len() as int) <= high,
{
    lemma_sum_between(values, low, high);
    let n = values.len() as int;
    let s = sum_of(values);
    assert(low <= s / n <= high) by (nonlinear_arith)
        requires
            n > 0,
            n * low <= s <= n * high,
    ;
}

proof fn lemma_sum_between(values: Seq<u64>, low: u64, high: u64)
    requires
        forall|i: int| 0 <= i < values.len() ==> low <= #[trigger] values[i] <= high,
    ensures
        values.len() * low <= sum_of(values) <= values.len() * high,
    decreases values.len(),
{
    if values.len() > 0 {
        lemma_sum_between(values.drop_last(), low, high);
        let n = values.len() as int;
        assert(n * low == (n - 1) * low + low) by (nonlinear_arith);
        assert(n * high == (n - 1) * high + high) by (nonlinear_arith);
    }
}

} // verus!
