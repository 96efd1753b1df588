//! What holds of every timespan metric, proved over the model of its
//! operations.

use vstd::prelude::*;
use crate::error_recording::{count_errors, count_errors_after_push, ErrorType};
use crate::glean::GleanView;
use crate::metrics::timespan::{merge, TimespanError, TimespanMetricView};
use crate::metrics::time_unit::TimeUnit;
use crate::metrics::Metric;
use crate::storage::StoreKey;

verus! {

/// `cancel` leaves any metric idle and changes nothing else about it; on an
/// idle metric it changes nothing at all, so a second `cancel` is without
/// effect. It is handed no `Glean` object and so cannot report an error.
pub proof fn cancel_is_idempotent(metric: TimespanMetricView)
    ensures
        metric.cancel().start_time is None,
        metric.cancel().meta == metric.meta,
        metric.cancel().time_unit == metric.time_unit,
        metric.start_time is None ==> metric.cancel() == metric,
        metric.cancel().cancel() == metric.cancel(),
{
}

/// `set_start` on a running metric that may record keeps the start time and
/// reports `AlreadyStarted` once; the store is not touched.
pub proof fn start_while_running_keeps_start_time(
    metric: TimespanMetricView,
    glean: GleanView,
    start_time: u64,
)
    requires
        metric.start_time is Some,
        metric.should_record(glean),
    ensures
        metric.set_start(glean, start_time).0 == metric,
        metric.set_start(glean, start_time).1 == metric.report(
            glean,
            TimespanError::AlreadyStarted,
        ),
        metric.set_start(glean, start_time).1.store == glean.store,
{
}

/// Two calls of `set_start` in a row on an idle metric that may record leave
/// the metric running since the first time, with one `AlreadyStarted` record
/// more in the error log than before, and the store as it was.
pub proof fn second_start_keeps_first_time(
    metric: TimespanMetricView,
    glean: GleanView,
    first: u64,
    second: u64,
)
    requires
        metric.start_time is None,
        metric.should_record(glean),
    ensures
        ({
            let (started, glean1) = metric.set_start(glean, first);
            let (restarted, glean2) = started.set_start(glean1, second);
            &&& glean1 == glean
            &&& started.start_time == Some(first)
            &&& restarted.start_time == Some(first)
            &&& glean2.errors == glean.errors.push(
                metric.error_record(TimespanError::AlreadyStarted),
            )
            &&& count_errors(glean2.errors, metric.meta.identifier(), ErrorType::InvalidValue)
                == count_errors(glean.errors, metric.meta.identifier(), ErrorType::InvalidValue) + 1
            &&& glean2.store == glean.store
            &&& glean2.upload_enabled == glean.upload_enabled
        }),
{
    count_errors_after_push(
        glean.errors,
        metric.error_record(TimespanError::AlreadyStarted),
        metric.meta.identifier(),
        ErrorType::InvalidValue,
    );
}

/// `set_stop` on an idle metric leaves it idle, adds one `NotRunning` record to
/// the error log and does not touch the store, whether or not the metric may
/// record.
pub proof fn stop_without_start_reports_once(
    metric: TimespanMetricView,
    glean: GleanView,
    stop_time: u64,
)
    requires
        metric.start_time is None,
    ensures
        ({
            let (stopped, glean1) = metric.set_stop(glean, stop_time);
            &&& stopped == metric
            &&& glean1.errors == glean.errors.push(metric.error_record(TimespanError::NotRunning))
            &&& count_errors(glean1.errors, metric.meta.identifier(), ErrorType::InvalidValue)
                == count_errors(glean.errors, metric.meta.identifier(), ErrorType::InvalidValue) + 1
            &&& glean1.store == glean.store
            &&& glean1.upload_enabled == glean.upload_enabled
        }),
{
    count_errors_after_push(
        glean.errors,
        metric.error_record(TimespanError::NotRunning),
        metric.meta.identifier(),
        ErrorType::InvalidValue,
    );
}

/// `set_start` and then `set_stop` at a later or equal time, on an idle metric
/// that may record, leave the metric idle and the error log as it was. Each
/// store of the metric that held no timespan now holds the difference of the
/// two times in the metric's unit, and `test_get_value` reads that difference
/// converted into the unit: with nanoseconds, the difference itself.
pub proof fn start_stop_round_trip(
    metric: TimespanMetricView,
    glean: GleanView,
    start_time: u64,
    stop_time: u64,
    storage_name: Seq<char>,
)
    requires
        metric.start_time is None,
        metric.should_record(glean),
        start_time <= stop_time,
        metric.meta.send_in_pings.contains(storage_name),
        !(glean.store.get(metric.key_in(storage_name)) matches Some(Metric::Timespan(_, _))),
    ensures
        ({
            let (started, glean1) = metric.set_start(glean, start_time);
            let (stopped, glean2) = started.set_stop(glean1, stop_time);
            let elapsed = (stop_time - start_time) as u64;
            &&& stopped.start_time is None
            &&& glean2.errors == glean.errors
            &&& glean2.store.get(metric.key_in(storage_name)) == Some(
                Metric::Timespan(elapsed, metric.time_unit),
            )
            &&& stopped.get_value(glean2, storage_name) == Some(
                metric.time_unit.spec_duration_convert(elapsed),
            )
            &&& metric.time_unit == TimeUnit::Nanosecond ==> stopped.get_value(
                glean2,
                storage_name,
            ) == Some(elapsed)
        }),
{
}

/// `set_raw` without `overwrite`, on an idle metric that may record, leaves a
/// store that already holds a timespan for the metric as it is.
pub proof fn set_raw_keeps_stored_timespan(
    metric: TimespanMetricView,
    glean: GleanView,
    elapsed: u64,
    storage_name: Seq<char>,
)
    requires
        metric.start_time is None,
        metric.should_record(glean),
        metric.meta.send_in_pings.contains(storage_name),
        glean.store.get(metric.key_in(storage_name)) matches Some(Metric::Timespan(_, _)),
    ensures
        ({
            let glean1 = metric.set_raw(glean, elapsed, false);
            &&& glean1.store.get(metric.key_in(storage_name)) == glean.store.get(
                metric.key_in(storage_name),
            )
            &&& metric.get_value(glean1, storage_name) == metric.get_value(glean, storage_name)
            &&& glean1.errors == glean.errors
        }),
{
}

/// `set_raw` on an idle metric that may record puts the new timespan into
/// each store of the metric where `overwrite` is set or the store holds no
/// timespan for the metric; `test_get_value` then reads the new duration,
/// converted into the metric's unit.
pub proof fn set_raw_records_new_timespan(
    metric: TimespanMetricView,
    glean: GleanView,
    elapsed: u64,
    overwrite: bool,
    storage_name: Seq<char>,
)
    requires
        metric.start_time is None,
        metric.should_record(glean),
        metric.meta.send_in_pings.contains(storage_name),
        overwrite || !(glean.store.get(metric.key_in(storage_name)) matches Some(
            Metric::Timespan(_, _),
        )),
    ensures
        ({
            let glean1 = metric.set_raw(glean, elapsed, overwrite);
            &&& glean1.store.get(metric.key_in(storage_name)) == Some(
                Metric::Timespan(elapsed, metric.time_unit),
            )
            &&& metric.get_value(glean1, storage_name) == Some(
                metric.time_unit.spec_duration_convert(elapsed),
            )
            &&& glean1.errors == glean.errors
        }),
{
}

/// `set_raw` writes only at the places of its own metric: every other place
/// of the store keeps what it has.
pub proof fn set_raw_touches_own_places_only(
    metric: TimespanMetricView,
    glean: GleanView,
    elapsed: u64,
    overwrite: bool,
    key: StoreKey,
)
    requires
        !metric.meta.records_at(key),
    ensures
        metric.set_raw(glean, elapsed, overwrite).store.get(key) == glean.store.get(key),
{
}

/// Offering the same duration twice gives what offering it once gives.
pub proof fn merge_is_idempotent(
    old_value: Option<Metric>,
    elapsed: u64,
    time_unit: TimeUnit,
    overwrite: bool,
)
    ensures
        merge(Some(merge(old_value, elapsed, time_unit, overwrite)), elapsed, time_unit, overwrite)
            == merge(old_value, elapsed, time_unit, overwrite),
        merge(old_value, elapsed, time_unit, overwrite) is Timespan,
{
}

/// `set_raw` on a running metric that may record adds one
/// `RunningDuringRawSet` record to the error log and does not touch the store.
pub proof fn set_raw_while_running_reports_once(
    metric: TimespanMetricView,
    glean: GleanView,
    elapsed: u64,
    overwrite: bool,
)
    requires
        metric.start_time is Some,
        metric.should_record(glean),
    ensures
        ({
            let glean1 = metric.set_raw(glean, elapsed, overwrite);
            &&& glean1.errors == glean.errors.push(
                metric.error_record(TimespanError::RunningDuringRawSet),
            )
            &&& count_errors(glean1.errors, metric.meta.identifier(), ErrorType::InvalidValue)
                == count_errors(glean.errors, metric.meta.identifier(), ErrorType::InvalidValue) + 1
            &&& glean1.store == glean.store
            &&& glean1.upload_enabled == glean.upload_enabled
        }),
{
    count_errors_after_push(
        glean.errors,
        metric.error_record(TimespanError::RunningDuringRawSet),
        metric.meta.identifier(),
        ErrorType::InvalidValue,
    );
}

/// Where the metric may not record, `set_start` and `set_raw` do nothing: the
/// metric, the store and the error log stay as they are. `set_stop` on such a
/// metric, if it is running, only makes it idle.
pub proof fn disabled_metric_records_nothing(
    metric: TimespanMetricView,
    glean: GleanView,
    time: u64,
    elapsed: u64,
    overwrite: bool,
)
    requires
        !metric.should_record(glean),
    ensures
        metric.set_start(glean, time) == (metric, glean),
        metric.set_raw(glean, elapsed, overwrite) == glean,
        metric.start_time matches Some(start_time) && start_time <= time ==> metric.set_stop(
            glean,
            time,
        ) == (metric.idle(), glean),
{
}

/// `set_stop` with a time before the start time leaves a running metric idle,
/// adds one `NegativeDuration` record to the error log and does not touch the
/// store.
pub proof fn stop_before_start_reports_once(
    metric: TimespanMetricView,
    glean: GleanView,
    stop_time: u64,
)
    requires
        metric.start_time matches Some(start_time) && stop_time < start_time,
    ensures
        ({
            let (stopped, glean1) = metric.set_stop(glean, stop_time);
            &&& stopped == metric.idle()
            &&& glean1.errors == glean.errors.push(
                metric.error_record(TimespanError::NegativeDuration),
            )
            &&& count_errors(glean1.errors, metric.meta.identifier(), ErrorType::InvalidValue)
                == count_errors(glean.errors, metric.meta.identifier(), ErrorType::InvalidValue) + 1
            &&& glean1.store == glean.store
            &&& glean1.upload_enabled == glean.upload_enabled
        }),
{
    count_errors_after_push(
        glean.errors,
        metric.error_record(TimespanError::NegativeDuration),
        metric.meta.identifier(),
        ErrorType::InvalidValue,
    );
}

} // verus!
