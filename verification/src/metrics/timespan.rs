//! The timespan metric: how long a task took.
//!
//! A metric is idle or running. `set_start` begins a measurement, `set_stop`
//! ends it and records the elapsed time, `cancel` drops it, and `set_raw`
//! records a duration that was measured elsewhere. Misuse is reported to the
//! error log and never to the caller.

use vstd::prelude::*;
use crate::common_metric_data::{CommonMetricData, CommonMetricDataView};
use crate::error_recording::{record_error, ErrorRecord, ErrorType};
use crate::glean::{Glean, GleanView};
use crate::metrics::time_unit::TimeUnit;
use crate::metrics::Metric;
use crate::storage::StoreKey;

verus! {

/// The ways in which a timespan metric can be misused.
#[derive(Clone, Copy, Debug, PartialEq, Eq, Structural)]
pub enum TimespanError {
    /// `set_start` on a metric that is running.
    AlreadyStarted,
    /// `set_stop` on a metric that is idle.
    NotRunning,
    /// `set_raw` on a metric that is running.
    RunningDuringRawSet,
    /// `set_stop` with a time before the start time.
    NegativeDuration,
}

impl TimespanError {
    /// The kind under which the misuse is reported.
    pub open spec fn spec_kind(self) -> ErrorType {
        ErrorType::InvalidValue
    }

    /// The message with which the misuse is reported.
    pub open spec fn spec_message(self) -> Seq<char> {
        match self {
            TimespanError::AlreadyStarted => "Timespan already started"@,
            TimespanError::NotRunning => "Timespan not running"@,
            TimespanError::RunningDuringRawSet => "Timespan already running. Raw value not recorded."@,
            TimespanError::NegativeDuration => "Timespan was negative"@,
        }
    }

    /// The kind under which the misuse is reported.
    #[verifier::when_used_as_spec(spec_kind)]
    pub fn kind(self) -> (kind: ErrorType)
        ensures
            kind == self.spec_kind(),
    {
        ErrorType::InvalidValue
    }

    /// The message with which the misuse is reported.
    pub fn message(self) -> (message: &'static str)
        ensures
            message@ == self.spec_message(),
    {
        match self {
            TimespanError::AlreadyStarted => "Timespan already started",
            TimespanError::NotRunning => "Timespan not running",
            TimespanError::RunningDuringRawSet => "Timespan already running. Raw value not recorded.",
            TimespanError::NegativeDuration => "Timespan was negative",
        }
    }
}

/// The value that a store holds after `elapsed` nanoseconds, measured in
/// `time_unit`, are offered to it: a timespan that is already there stays
/// unless `overwrite` is set; anything else gives way to the new timespan.
pub open spec fn merge(
    old_value: Option<Metric>,
    elapsed: u64,
    time_unit: TimeUnit,
    overwrite: bool,
) -> Metric {
    if !overwrite && old_value is Some && old_value->0 is Timespan {
        old_value->0
    } else {
        Metric::Timespan(elapsed, time_unit)
    }
}

/// The store after `elapsed` is merged into every place at which `meta`
/// records.
pub open spec fn merge_into(
    store: Map<StoreKey, Metric>,
    meta: CommonMetricDataView,
    elapsed: u64,
    time_unit: TimeUnit,
    overwrite: bool,
) -> Map<StoreKey, Metric> {
    Map::new(
        |key: StoreKey| store.contains_key(key) || meta.records_at(key),
        |key: StoreKey|
            if meta.records_at(key) {
                merge(store.get(key), elapsed, time_unit, overwrite)
            } else {
                store[key]
            },
    )
}

/// Decides what a store holds after `elapsed` nanoseconds are offered to it.
pub fn record_merge(
    old_value: Option<Metric>,
    elapsed: u64,
    time_unit: TimeUnit,
    overwrite: bool,
) -> (new_value: Metric)
    ensures
        new_value == merge(old_value, elapsed, time_unit, overwrite),
{
    if overwrite {
        Metric::Timespan(elapsed, time_unit)
    } else {
        match old_value {
            Some(Metric::Timespan(nanos, unit)) => Metric::Timespan(nanos, unit),
            _ => Metric::Timespan(elapsed, time_unit),
        }
    }
}

/// A timespan metric.
#[derive(Debug)]
pub struct TimespanMetric {
    meta: CommonMetricData,
    time_unit: TimeUnit,
    start_time: Option<u64>,
}

/// The mathematical content of a `TimespanMetric`: idle where `start_time` is
/// `None`, running since that time otherwise.
pub struct TimespanMetricView {
    pub meta: CommonMetricDataView,
    pub time_unit: TimeUnit,
    pub start_time: Option<u64>,
}

impl View for TimespanMetric {
    type V = TimespanMetricView;

    closed spec fn view(&self) -> TimespanMetricView {
        TimespanMetricView {
            meta: self.meta@,
            time_unit: self.time_unit,
            start_time: self.start_time,
        }
    }
}

impl TimespanMetricView {
    /// Whether the metric may record into `glean`: uploading is on and the
    /// metric is not switched off.
    pub open spec fn should_record(self, glean: GleanView) -> bool {
        glean.upload_enabled && self.meta.should_record()
    }

    /// This metric, idle.
    pub open spec fn idle(self) -> TimespanMetricView {
        TimespanMetricView { start_time: None, ..self }
    }

    /// The record that this metric leaves in the error log for `error`.
    pub open spec fn error_record(self, error: TimespanError) -> ErrorRecord {
        ErrorRecord {
            identifier: self.meta.identifier(),
            kind: error.spec_kind(),
            message: error.spec_message(),
        }
    }

    /// `glean` after this metric has reported `error`: one more record in the
    /// error log, and nothing else changed.
    pub open spec fn report(self, glean: GleanView, error: TimespanError) -> GleanView {
        GleanView { errors: glean.errors.push(self.error_record(error)), ..glean }
    }

    /// The place of this metric's value in the store named `storage_name`.
    pub open spec fn key_in(self, storage_name: Seq<char>) -> StoreKey {
        StoreKey { store_name: storage_name, identifier: self.meta.identifier() }
    }

    /// The metric and `glean` after `set_start`.
    pub open spec fn set_start(self, glean: GleanView, start_time: u64) -> (
        TimespanMetricView,
        GleanView,
    ) {
        if !self.should_record(glean) {
            (self, glean)
        } else if self.start_time is Some {
            (self, self.report(glean, TimespanError::AlreadyStarted))
        } else {
            (TimespanMetricView { start_time: Some(start_time), ..self }, glean)
        }
    }

    /// The metric and `glean` after `set_stop`.
    pub open spec fn set_stop(self, glean: GleanView, stop_time: u64) -> (
        TimespanMetricView,
        GleanView,
    ) {
        match self.start_time {
            None => (self, self.report(glean, TimespanError::NotRunning)),
            Some(start_time) => if stop_time < start_time {
                (self.idle(), self.report(glean, TimespanError::NegativeDuration))
            } else {
                (self.idle(), self.idle().set_raw(glean, (stop_time - start_time) as u64, false))
            },
        }
    }

    /// The metric after `cancel`.
    pub open spec fn cancel(self) -> TimespanMetricView {
        self.idle()
    }

    /// `glean` after `set_raw`.
    pub open spec fn set_raw(self, glean: GleanView, elapsed: u64, overwrite: bool) -> GleanView {
        if !self.should_record(glean) {
            glean
        } else if self.start_time is Some {
            self.report(glean, TimespanError::RunningDuringRawSet)
        } else {
            GleanView {
                store: merge_into(glean.store, self.meta, elapsed, self.time_unit, overwrite),
                ..glean
            }
        }
    }

    /// What `test_get_value` reads from the store named `storage_name`.
    pub open spec fn get_value(self, glean: GleanView, storage_name: Seq<char>) -> Option<u64> {
        match glean.store.get(self.key_in(storage_name)) {
            Some(Metric::Timespan(nanos, _)) => Some(self.time_unit.spec_duration_convert(nanos)),
            _ => None,
        }
    }
}

impl TimespanMetric {
    /// Creates a new timespan metric; it is idle.
    pub fn new(meta: CommonMetricData, time_unit: TimeUnit) -> (metric: TimespanMetric)
        ensures
            metric@ == (TimespanMetricView { meta: meta@, time_unit, start_time: None }),
    {
        TimespanMetric { meta, time_unit, start_time: None }
    }

    /// The metric's identity and recording settings.
    pub fn meta(&self) -> (meta: &CommonMetricData)
        ensures
            meta@ == self@.meta,
    {
        &self.meta
    }

    /// The metric's identity and recording settings, to change them in place.
    pub fn meta_mut(&mut self) -> (meta: &mut CommonMetricData)
        ensures
            meta@ == old(self)@.meta,
            final(self)@ == (TimespanMetricView { meta: final(meta)@, ..old(self)@ }),
    {
        &mut self.meta
    }

    /// The unit in which the metric reports.
    pub fn time_unit(&self) -> (time_unit: TimeUnit)
        ensures
            time_unit == self@.time_unit,
    {
        self.time_unit
    }

    /// The time since which the metric is running, or `None` where it is idle.
    pub fn start_time(&self) -> (start_time: Option<u64>)
        ensures
            start_time == self@.start_time,
    {
        self.start_time
    }

    /// Whether the metric may record into `glean`.
    pub fn should_record(&self, glean: &Glean) -> (allowed: bool)
        ensures
            allowed == self@.should_record(glean@),
    {
        glean.is_upload_enabled() && self.meta.should_record()
    }

    /// Reports `error` for this metric.
    fn report(&self, glean: &mut Glean, error: TimespanError)
        ensures
            final(glean)@ == self@.report(old(glean)@, error),
    {
        record_error(glean, &self.meta, error.kind(), error.message());
    }

    /// Starts tracking time.
    ///
    /// Where the metric may not record, nothing happens. Where it is already
    /// running, the first start time stays and `AlreadyStarted` is reported.
    pub fn set_start(&mut self, glean: &mut Glean, start_time: u64)
        ensures
            (final(self)@, final(glean)@) == old(self)@.set_start(old(glean)@, start_time),
    {
        if !self.should_record(glean) {
            return;
        }
        if self.start_time.is_some() {
            self.report(glean, TimespanError::AlreadyStarted);
            return;
        }
        self.start_time = Some(start_time);
    }

    /// Stops tracking time and records the time elapsed since the start.
    ///
    /// The metric is idle afterwards. A timespan that the store already holds
    /// is kept. Where the metric was idle, `NotRunning` is reported; where
    /// `stop_time` lies before the start time, `NegativeDuration` is reported;
    /// neither writes to the store.
    pub fn set_stop(&mut self, glean: &mut Glean, stop_time: u64)
        ensures
            (final(self)@, final(glean)@) == old(self)@.set_stop(old(glean)@, stop_time),
    {
        match self.start_time {
            None => {
                self.report(glean, TimespanError::NotRunning);
            },
            Some(start_time) => {
                self.start_time = None;
                if stop_time < start_time {
                    self.report(glean, TimespanError::NegativeDuration);
                } else {
                    let elapsed: u64 = stop_time - start_time;
                    self.set_raw(glean, elapsed, false);
                }
            },
        }
    }

    /// Aborts a measurement. On an idle metric nothing happens.
    pub fn cancel(&mut self)
        ensures
            final(self)@ == old(self)@.cancel(),
    {
        self.start_time = None;
    }

    /// Records `elapsed` nanoseconds without a measurement of the metric's own.
    ///
    /// Where the metric may not record, nothing happens. Where it is running,
    /// `RunningDuringRawSet` is reported and nothing is written. Otherwise
    /// each store of the metric takes the new timespan, except that a store
    /// which already holds a timespan keeps it unless `overwrite` is set.
    pub fn set_raw(&self, glean: &mut Glean, elapsed: u64, overwrite: bool)
        ensures
            final(glean)@ == self@.set_raw(old(glean)@, elapsed, overwrite),
    {
        if !self.should_record(glean) {
            return;
        }
        if self.start_time.is_some() {
            self.report(glean, TimespanError::RunningDuringRawSet);
            return;
        }
        let time_unit = self.time_unit;
        let transform = |old_value: Option<Metric>| -> (new_value: Metric)
            ensures
                new_value == merge(old_value, elapsed, time_unit, overwrite),
            { record_merge(old_value, elapsed, time_unit, overwrite) };
        glean.storage.record_with(&self.meta, transform);
        proof {
            let before = old(glean)@.store;
            let after = glean@.store;
            let merged = merge_into(before, self@.meta, elapsed, time_unit, overwrite);
            assert forall|key: StoreKey|
                #![trigger after.dom().contains(key)]
                #![trigger merged.dom().contains(key)]
                after.dom().contains(key) == merged.dom().contains(key) by {
                if !self@.meta.records_at(key) {
                    assert(after.get(key) == before.get(key));
                }
            }
            assert forall|key: StoreKey|
                #![trigger after[key]]
                #![trigger merged[key]]
                after.dom().contains(key) implies after[key] == merged[key] by {
                if !self@.meta.records_at(key) {
                    assert(after.get(key) == before.get(key));
                }
            }
            assert(after =~= merged);
        }
    }

    /// The stored timespan of this metric in the store named `storage_name`,
    /// converted into the metric's unit; `None` where that store holds no
    /// timespan for the metric. Nothing is changed.
    pub fn test_get_value(&self, glean: &Glean, storage_name: &str) -> (value: Option<u64>)
        ensures
            value == self@.get_value(glean@, storage_name@),
    {
        let identifier = self.meta.identifier();
        match glean.storage.snapshot_metric(storage_name, identifier.as_str()) {
            Some(Metric::Timespan(nanos, _)) => Some(self.time_unit.duration_convert(nanos)),
            _ => None,
        }
    }
}

} // verus!
