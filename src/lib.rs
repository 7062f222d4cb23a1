//! A small harness that measures how long it takes to duplicate a string
//! under three ownership strategies: an owned deep copy, a single-threaded
//! reference-counted handle and an atomically reference-counted handle.
//!
//! The arithmetic and bookkeeping of the harness are verified: the summary
//! statistics, the workload generator's alphabet and length, the strategies'
//! content preservation, the per-trial bookkeeping of a measurement, the
//! matrix of runs and the delimited rows handed to an exporter.

pub mod bench;
pub mod export;
pub mod plotter;
pub mod stats;
pub mod strategy;
pub mod timing;
pub mod workload;

pub use bench::{
    BenchConfig, ESSAYS, LARGE, MEDIUM, RunResult, SMALL, SMALL_MEDIUM, SizeReport, TINY, XL,
    run_matrix,
};
pub use export::{ExportError, csv_rows, decimal_string, push_decimal};
pub use plotter::{Dimensions, dimensions_or_default, plot_values};
pub use stats::{Stats, StatsError, summarize};
pub use strategy::{Handle, StrType};
pub use timing::{clone_str, measure_trials};
pub use workload::generate_random_string;
