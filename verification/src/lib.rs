//! Core of an HTTP load-generation tool: a bounded-concurrency dispatch
//! model and a streaming aggregator that folds request outcomes into a
//! final run report (success/failure counts, response-code distribution,
//! latency extrema and quantile estimates, failure-reason tallies).
//!
//! All I/O (the HTTP client, the async task plumbing, report rendering)
//! lives outside this crate; the crate works on plain values and proves
//! the accounting of the run.

pub mod accumulator;
pub mod codes;
pub mod outcome;
pub mod quantile;
pub mod reasons;
pub mod report;
pub mod run;

pub use accumulator::aggregate_outcomes;
pub use accumulator::Accumulator;
pub use codes::CodeCounts;
pub use quantile::Histogram;
pub use quantile::LatencyEstimator;
pub use quantile::Quantile;
pub use reasons::FailureReasons;
pub use report::RunReport;
pub use run::ConfigError;
pub use run::Run;
pub use run::RunConfig;
pub use outcome::FailureFlags;
pub use outcome::Outcome;
pub use outcome::Reason;
