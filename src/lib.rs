//! A correctness-and-throughput harness for point lookups against an
//! immutable key-to-value index.
//!
//! The library holds the parts of the harness that decide: how a delimiter
//! specifier is resolved, how a workload is loaded, how each lookup result is
//! judged, how the timed replay advances, and how the throughput is computed.
//! Everything that touches the clock, the index file or the terminal is left
//! to the caller, which feeds the results back in as plain values.
pub mod delimiter;
pub mod metrics;
pub mod oracle;
pub mod replay;
pub mod text;
pub mod workload;

pub use delimiter::{resolve_delimiter, parse_delimiter, DelimiterInvalidError, DEFAULT_DELIMITER};
pub use oracle::{check, judge, Mismatch, SENTINEL};
pub use workload::{load_workload, read_workload, LoadError, QueryRecord};
pub use replay::{EmptyWorkload, Replay, Step, SAMPLE_INTERVAL, TIME_BUDGET_MS};
pub use metrics::{report, throughput, Report, ZeroElapsed};
