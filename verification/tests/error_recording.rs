use glean_core::error_recording::{
    record_error, test_get_num_recorded_errors, ErrorLog, ErrorType,
};
use glean_core::metrics::Metric;
use glean_core::{CommonMetricData, Glean};

fn meta(name: &str) -> CommonMetricData {
    CommonMetricData {
        name: name.to_string(),
        category: "task".to_string(),
        send_in_pings: vec!["store1".to_string()],
        disabled: false,
    }
}

#[test]
fn new_glean_is_empty() {
    let glean = Glean::new(true);
    assert!(glean.is_upload_enabled());
    assert_eq!(glean.errors.len(), 0);
    assert!(glean.errors.get(0).is_none());
    assert_eq!(glean.storage().snapshot_metric("store1", "task.duration"), None);
    assert!(!Glean::new(false).is_upload_enabled());
}

#[test]
fn set_upload_enabled_keeps_store_and_errors() {
    let mut glean = Glean::new(true);
    let data = meta("duration");
    glean.storage.record_with(&data, |_| Metric::Counter(1));
    record_error(&mut glean, &data, ErrorType::InvalidState, "wrong state");
    glean.set_upload_enabled(false);
    assert!(!glean.is_upload_enabled());
    assert_eq!(glean.errors.len(), 1);
    assert_eq!(glean.storage.snapshot_metric("store1", "task.duration"), Some(Metric::Counter(1)));
}

#[test]
fn record_error_appends_one_record() {
    let mut glean = Glean::new(true);
    let data = meta("duration");
    record_error(&mut glean, &data, ErrorType::InvalidValue, "first");
    record_error(&mut glean, &data, ErrorType::InvalidOverflow, "second");
    assert_eq!(glean.errors.len(), 2);
    let first = glean.errors.get(0).unwrap();
    assert_eq!(first.identifier, "task.duration");
    assert_eq!(first.kind, ErrorType::InvalidValue);
    assert_eq!(first.message, "first");
    let second = glean.errors.get(1).unwrap();
    assert_eq!(second.identifier, "task.duration");
    assert_eq!(second.kind, ErrorType::InvalidOverflow);
    assert_eq!(second.message, "second");
    assert!(glean.errors.get(2).is_none());
    assert_eq!(glean.storage.snapshot_metric("store1", "task.duration"), None);
}

#[test]
fn errors_are_counted_by_metric_and_kind() {
    let mut glean = Glean::new(true);
    let duration = meta("duration");
    let other = meta("other");
    record_error(&mut glean, &duration, ErrorType::InvalidValue, "a");
    record_error(&mut glean, &other, ErrorType::InvalidValue, "b");
    record_error(&mut glean, &duration, ErrorType::InvalidLabel, "c");
    record_error(&mut glean, &duration, ErrorType::InvalidValue, "d");
    assert_eq!(test_get_num_recorded_errors(&glean, &duration, ErrorType::InvalidValue), 2);
    assert_eq!(test_get_num_recorded_errors(&glean, &duration, ErrorType::InvalidLabel), 1);
    assert_eq!(test_get_num_recorded_errors(&glean, &duration, ErrorType::InvalidState), 0);
    assert_eq!(test_get_num_recorded_errors(&glean, &other, ErrorType::InvalidValue), 1);
    assert_eq!(test_get_num_recorded_errors(&glean, &other, ErrorType::InvalidOverflow), 0);
}

#[test]
fn error_log_counts_what_was_recorded() {
    let mut log = ErrorLog::new();
    assert_eq!(log.len(), 0);
    assert_eq!(log.count("task.duration", ErrorType::InvalidValue), 0);
    log.record("task.duration".to_string(), ErrorType::InvalidValue, "a");
    log.record("task.duration".to_string(), ErrorType::InvalidValue, "b");
    log.record("task".to_string(), ErrorType::InvalidValue, "c");
    assert_eq!(log.len(), 3);
    assert_eq!(log.count("task.duration", ErrorType::InvalidValue), 2);
    assert_eq!(log.count("task", ErrorType::InvalidValue), 1);
    assert_eq!(log.count("duration", ErrorType::InvalidValue), 0);
    assert_eq!(log.get(1).unwrap().message, "b");
}
