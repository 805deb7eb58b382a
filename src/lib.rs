//! A load-generation engine: bounded request dispatch, outcome classification
//! and aggregate statistics, with their contracts proved by Verus.

pub mod classify;
pub mod config;
pub mod engine;
pub mod parse;
pub mod stats;
pub mod text;

pub use classify::{classify_error_flags, classify_reqwest_error};
pub use config::{load_json_payload, plan_run, set_header, Args, ConfigError, RunArgs, RunPlan};
pub use engine::{progress_due, LoadState, Outcome, StopCause};
pub use parse::{
    parse_duration, parse_duration_parts, parse_header, parse_http_method, parse_method_kind,
    parse_u64, HttpMethod, TimeUnit,
};
pub use stats::{
    Aggregates, AggregatesError, LatencyHistogram, NetErrCounts, NetErrKind, StatusClassCounts,
};
