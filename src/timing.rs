use std::time::{Duration, Instant};
use vstd::prelude::*;

use crate::stats::{Stats, StatsError, lemma_sum_bounded, seq_sum, summarize, summarizes};
use crate::strategy::{Handle, StrType};
use crate::workload::generate_random_string;

verus! {

/// The longest `Duration` in nanoseconds: `u64::MAX` whole seconds and
/// 999_999_999 nanoseconds.
pub const MAX_NANOS: u128 = 18_446_744_073_709_551_615_999_999_999;

/// The most trials whose durations always sum within `u128`.
pub open spec fn max_trials() -> int {
    17_179_869_184
}

#[verifier::external_type_specification]
#[verifier::external_body]
pub struct ExInstant(Instant);

/// Relies on `Instant::now`: a reading of the monotonic clock.
pub assume_specification[ Instant::now ]() -> Instant;

/// Relies on `Instant::duration_since`: the time from `earlier` to `self`,
/// zero where `earlier` is the later of the two.
pub assume_specification[ Instant::duration_since ](this: &Instant, earlier: Instant) -> Duration;

/// Relies on `Duration::as_nanos`: the whole length in nanoseconds, that is
/// `as_secs()` (a `u64`) times 10^9 plus `subsec_nanos()` (below 10^9).
pub assume_specification[ Duration::as_nanos ](this: &Duration) -> (r: u128)
    ensures
        r <= MAX_NANOS,
;

/// Relies on `std::hint::black_box`: the duplicate counts as used, so the
/// copy that produced it cannot be optimised away.
#[verifier::external_body]
fn keep_alive(d: Handle) {
    std::hint::black_box(d);
}

/// Runs `trials` trials of strategy `kind` on payloads of `size` characters
/// and returns the duration of each duplication, in nanoseconds, in trial
/// order. Each trial draws and wraps a fresh payload before the first clock
/// reading; only the duplication lies between the two readings.
pub fn measure_trials(kind: StrType, trials: usize, size: usize) -> (values: Vec<u128>)
    ensures
        values@.len() == trials,
        forall|i: int| 0 <= i < trials ==> #[trigger] values@[i] <= MAX_NANOS,
{
    let mut values: Vec<u128> = Vec::with_capacity(trials);
    let mut t: usize = 0;
    while t < trials
        invariant
            t <= trials,
            values@.len() == t,
            forall|i: int| 0 <= i < t ==> #[trigger] values@[i] <= MAX_NANOS,
        decreases trials - t,
    {
        let payload = generate_random_string(size);
        let handle = Handle::wrap(kind, payload);
        let start = Instant::now();
        let copy = handle.duplicate();
        let end = Instant::now();
        let elapsed = end.duration_since(start).as_nanos();
        keep_alive(copy);
        values.push(elapsed);
        t = t + 1;
    }
    values
}

/// One benchmark run: `essays` timed duplications under strategy `str_type`
/// of payloads of `size` characters, with their summary. It fails exactly
/// when there is no trial; up to `max_trials()` trials, no total of
/// durations can pass `u128`, so it succeeds.
pub fn clone_str(str_type: StrType, essays: usize, size: usize) -> (r: Result<
    (Stats, Vec<u128>),
    StatsError,
>)
    ensures
        essays == 0 <==> r == Err::<(Stats, Vec<u128>), StatsError>(StatsError::Empty),
        1 <= essays <= max_trials() ==> r is Ok,
        r matches Ok((st, values)) ==> values@.len() == essays && summarizes(st, values@),
{
    let values = measure_trials(str_type, essays, size);
    proof {
        if essays as int <= max_trials() {
            lemma_sum_bounded(values@, MAX_NANOS as int);
            let n = values@.len() as int;
            assert(n * (MAX_NANOS as int) <= max_trials() * (MAX_NANOS as int)) by (nonlinear_arith)
                requires
                    0 <= n <= max_trials(),
            ;
            assert(max_trials() * (MAX_NANOS as int) <= u128::MAX);
            assert(seq_sum(values@) <= u128::MAX);
        }
    }
    match summarize(&values) {
        Ok(st) => Ok((st, values)),
        Err(e) => Err(e),
    }
}

} // verus!
