use vstd::prelude::*;

use crate::stats::{Stats, StatsError, summarizes};
use crate::strategy::StrType;
use crate::timing::{clone_str, max_trials};

verus! {

/// The tiny payload size, in characters.
pub const TINY: usize = 1;

/// The small payload size, in characters.
pub const SMALL: usize = 32;

/// The small-medium payload size, in characters.
pub const SMALL_MEDIUM: usize = 256;

/// The medium payload size, in characters.
pub const MEDIUM: usize = 1024;

/// The large payload size, in characters.
pub const LARGE: usize = 8192;

/// The extra-large payload size, in characters.
pub const XL: usize = 32768;

/// The trial count of a standard run.
pub const ESSAYS: usize = 2048;

/// What a benchmark run yields: a summary and the raw series, or why the
/// series could not be summarised.
pub type RunResult = Result<(Stats, Vec<u128>), StatsError>;

/// `r` is what `clone_str` may return for `essays` trials.
pub open spec fn is_run_of(r: RunResult, essays: usize) -> bool {
    &&& (essays == 0 <==> r == Err::<(Stats, Vec<u128>), StatsError>(StatsError::Empty))
    &&& (1 <= essays <= max_trials() ==> r is Ok)
    &&& (r matches Ok((st, values)) ==> values@.len() == essays && summarizes(st, values@))
}

/// The matrix to run: every size in `sizes`, each with `essays` trials of
/// each strategy.
#[derive(Debug)]
pub struct BenchConfig {
    pub essays: usize,
    pub sizes: Vec<usize>,
}

impl BenchConfig {
    /// The standard run: 2048 trials at the small, small-medium and medium
    /// sizes. The large sizes are left out for their running time.
    pub fn standard() -> (c: BenchConfig)
        ensures
            c.essays == ESSAYS,
            c.sizes@ == seq![SMALL, SMALL_MEDIUM, MEDIUM],
    {
        BenchConfig { essays: ESSAYS, sizes: vec![SMALL, SMALL_MEDIUM, MEDIUM] }
    }
}

/// The three runs at one payload size, one per strategy.
#[derive(Debug)]
pub struct SizeReport {
    pub size: usize,
    pub string: RunResult,
    pub rc: RunResult,
    pub arc: RunResult,
}

/// Runs the whole matrix in order: for each size of `config`, the owned,
/// the single-threaded shared and the atomically shared strategy, one after
/// the other.
pub fn run_matrix(config: &BenchConfig) -> (reports: Vec<SizeReport>)
    ensures
        reports@.len() == config.sizes@.len(),
        forall|i: int|
            0 <= i < reports@.len() ==> {
                let r = #[trigger] reports@[i];
                &&& r.size == config.sizes@[i]
                &&& is_run_of(r.string, config.essays)
                &&& is_run_of(r.rc, config.essays)
                &&& is_run_of(r.arc, config.essays)
            },
{
    let mut reports: Vec<SizeReport> = Vec::with_capacity(config.sizes.len());
    let mut i: usize = 0;
    while i < config.sizes.len()
        invariant
            i <= config.sizes@.len(),
            reports@.len() == i,
            forall|k: int|
                0 <= k < i ==> {
                    let r = #[trigger] reports@[k];
                    &&& r.size == config.sizes@[k]
                    &&& is_run_of(r.string, config.essays)
                    &&& is_run_of(r.rc, config.essays)
                    &&& is_run_of(r.arc, config.essays)
                },
        decreases config.sizes@.len() - i,
    {
        let size = config.sizes[i];
        let string = clone_str(StrType::StringType, config.essays, size);
        let rc = clone_str(StrType::RcType, config.essays, size);
        let arc = clone_str(StrType::ArcType, config.essays, size);
        reports.push(SizeReport { size, string, rc, arc });
        i = i + 1;
    }
    reports
}

} // verus!
