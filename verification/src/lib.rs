//! A timespan metric for a telemetry library: a start/stop/cancel state
//! machine, the policy that merges a measurement into a shared metrics store,
//! and the read path that converts a stored duration into the metric's unit.
//!
//! Every function is verified against a contract over a mathematical model of
//! the metric, the store and the error log.

pub mod common_metric_data;
pub mod error_recording;
pub mod glean;
pub mod metrics;
pub mod storage;

pub use common_metric_data::CommonMetricData;
pub use glean::Glean;
