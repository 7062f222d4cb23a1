use vstd::prelude::*;

verus! {

/// The sum of a sequence of durations, as a mathematical integer.
pub open spec fn seq_sum(s: Seq<u128>) -> int
    decreases s.len(),
{
    if s.len() == 0 {
        0
    } else {
        seq_sum(s.drop_last()) + s.last()
    }
}

/// `m` is the least element of `s`.
pub open spec fn is_min_of(m: u128, s: Seq<u128>) -> bool {
    &&& forall|i: int| 0 <= i < s.len() ==> m <= #[trigger] s[i]
    &&& exists|i: int| 0 <= i < s.len() && s[i] == m
}

/// `m` is the greatest element of `s`.
pub open spec fn is_max_of(m: u128, s: Seq<u128>) -> bool {
    &&& forall|i: int| 0 <= i < s.len() ==> #[trigger] s[i] <= m
    &&& exists|i: int| 0 <= i < s.len() && s[i] == m
}

/// Summary of one series of trial durations, in nanoseconds.
#[derive(Clone, Copy, Debug, PartialEq, Eq, Structural)]
pub struct Stats {
    pub mean: u128,
    pub max: u128,
    pub min: u128,
}

/// Why a series could not be summarised.
#[derive(Clone, Copy, Debug, PartialEq, Eq, Structural)]
pub enum StatsError {
    /// The series holds no trial, so it has no mean.
    Empty,
    /// The total of the series does not fit in 128 bits.
    Overflow,
}

/// What `summarize` yields for a non-empty series whose total fits in `u128`.
pub open spec fn summarizes(r: Stats, s: Seq<u128>) -> bool {
    &&& r.mean == seq_sum(s) / s.len() as int
    &&& is_min_of(r.min, s)
    &&& is_max_of(r.max, s)
}

/// The sum of a sequence is at least the sum of any of its prefixes.
pub proof fn lemma_prefix_sum_le(s: Seq<u128>, n: int)
    requires
        0 <= n <= s.len(),
    ensures
        seq_sum(s.take(n)) <= seq_sum(s),
    decreases s.len(),
{
    if n < s.len() {
        assert(s.drop_last().take(n) =~= s.take(n));
        lemma_prefix_sum_le(s.drop_last(), n);
    } else {
        assert(s.take(n) =~= s);
    }
}

/// A sequence whose every element is at most `b` sums to at most
/// `s.len() * b`.
pub proof fn lemma_sum_bounded(s: Seq<u128>, b: int)
    requires
        forall|i: int| 0 <= i < s.len() ==> #[trigger] s[i] <= b,
    ensures
        seq_sum(s) <= s.len() * b,
    decreases s.len(),
{
    if s.len() > 0 {
        let init = s.drop_last();
        assert forall|i: int| 0 <= i < init.len() implies #[trigger] init[i] <= b by {
            assert(init[i] == s[i]);
        }
        lemma_sum_bounded(init, b);
        assert(s.last() <= b);
        assert((init.len() + 1) * b == init.len() * b + b) by (nonlinear_arith);
    }
}

/// Reduces a series of durations to its truncated mean, its minimum and its
/// maximum. An empty series has no summary, and neither has one whose total
/// overflows the accumulator.
pub fn summarize(values: &Vec<u128>) -> (r: Result<Stats, StatsError>)
    ensures
        r is Ok <==> (values@.len() > 0 && seq_sum(values@) <= u128::MAX),
        values@.len() == 0 <==> r == Err::<Stats, StatsError>(StatsError::Empty),
        r == Err::<Stats, StatsError>(StatsError::Overflow) <==> (values@.len() > 0
            && seq_sum(values@) > u128::MAX),
        r matches Ok(st) ==> summarizes(st, values@),
{
    let n = values.len();
    if n == 0 {
        return Err(StatsError::Empty);
    }
    let mut sum: u128 = 0;
    let mut max: u128 = 0;
    let mut min: u128 = u128::MAX;
    let mut i: usize = 0;
    while i < n
        invariant
            n == values@.len(),
            0 < n,
            0 <= i <= n,
            sum == seq_sum(values@.take(i as int)),
            i > 0 ==> is_min_of(min, values@.take(i as int)),
            i > 0 ==> is_max_of(max, values@.take(i as int)),
        decreases n - i,
    {
        let v = values[i];
        proof {
            assert(values@.take(i + 1).drop_last() =~= values@.take(i as int));
        }
        match sum.checked_add(v) {
            Some(s) => {
                sum = s;
            },
            None => {
                proof {
                    lemma_prefix_sum_le(values@, i + 1);
                }
                return Err(StatsError::Overflow);
            },
        }
        let ghost prev = values@.take(i as int);
        let ghost next = values@.take(i + 1);
        if i == 0 || v < min {
            min = v;
        }
        if i == 0 || v > max {
            max = v;
        }
        proof {
            assert(next[i as int] == v);
            assert forall|k: int| 0 <= k < i implies next[k] == #[trigger] prev[k] by {}
            if i > 0 {
                let j = choose|j: int| 0 <= j < prev.len() && prev[j] == min;
                let j2 = choose|j: int| 0 <= j < prev.len() && prev[j] == max;
                if min != v {
                    assert(next[j] == min);
                }
                if max != v {
                    assert(next[j2] == max);
                }
            }
        }
        i = i + 1;
    }
    proof {
        assert(values@.take(n as int) =~= values@);
    }
    Ok(Stats { mean: sum / (n as u128), max, min })
}

} // verus!
