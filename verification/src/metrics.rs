//! Metric values and the metric types that record them.

use vstd::prelude::*;
use crate::metrics::time_unit::TimeUnit;

pub mod time_unit;
pub mod timespan;
pub mod timespan_laws;

pub use timespan::TimespanMetric;

verus! {

/// A value as the metrics store holds it.
#[derive(Clone, Copy, Debug, PartialEq, Eq, Structural)]
pub enum Metric {
    /// A flag.
    Boolean(bool),
    /// A running count.
    Counter(i32),
    /// A duration in nanoseconds, with the unit it was recorded in.
    Timespan(u64, TimeUnit),
}

} // verus!
