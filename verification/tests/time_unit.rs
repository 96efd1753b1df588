use glean_core::metrics::time_unit::{saturating_nanos, TimeUnit};

const DAY: u64 = 86_400_000_000_000;

#[test]
fn nanos_per_unit_of_every_unit() {
    assert_eq!(TimeUnit::Nanosecond.nanos_per_unit(), 1);
    assert_eq!(TimeUnit::Microsecond.nanos_per_unit(), 1_000);
    assert_eq!(TimeUnit::Millisecond.nanos_per_unit(), 1_000_000);
    assert_eq!(TimeUnit::Second.nanos_per_unit(), 1_000_000_000);
    assert_eq!(TimeUnit::Minute.nanos_per_unit(), 60_000_000_000);
    assert_eq!(TimeUnit::Hour.nanos_per_unit(), 3_600_000_000_000);
    assert_eq!(TimeUnit::Day.nanos_per_unit(), DAY);
}

#[test]
fn convert_two_and_a_half_days() {
    let nanos = 2 * DAY + DAY / 2 + 1;
    assert_eq!(TimeUnit::Nanosecond.duration_convert(nanos), 216_000_000_000_001);
    assert_eq!(TimeUnit::Microsecond.duration_convert(nanos), 216_000_000_000);
    assert_eq!(TimeUnit::Millisecond.duration_convert(nanos), 216_000_000);
    assert_eq!(TimeUnit::Second.duration_convert(nanos), 216_000);
    assert_eq!(TimeUnit::Minute.duration_convert(nanos), 3_600);
    assert_eq!(TimeUnit::Hour.duration_convert(nanos), 60);
    assert_eq!(TimeUnit::Day.duration_convert(nanos), 2);
}

#[test]
fn convert_drops_the_remainder() {
    assert_eq!(TimeUnit::Microsecond.duration_convert(250), 0);
    assert_eq!(TimeUnit::Microsecond.duration_convert(999), 0);
    assert_eq!(TimeUnit::Microsecond.duration_convert(1_000), 1);
    assert_eq!(TimeUnit::Microsecond.duration_convert(1_999), 1);
    assert_eq!(TimeUnit::Second.duration_convert(999_999_999), 0);
    assert_eq!(TimeUnit::Second.duration_convert(1_000_000_000), 1);
    assert_eq!(TimeUnit::Minute.duration_convert(59_999_999_999), 0);
    assert_eq!(TimeUnit::Hour.duration_convert(3_599_999_999_999), 0);
    assert_eq!(TimeUnit::Day.duration_convert(DAY - 1), 0);
    assert_eq!(TimeUnit::Day.duration_convert(DAY), 1);
}

#[test]
fn convert_zero_and_the_largest_duration() {
    assert_eq!(TimeUnit::Nanosecond.duration_convert(0), 0);
    assert_eq!(TimeUnit::Day.duration_convert(0), 0);
    assert_eq!(TimeUnit::Nanosecond.duration_convert(u64::MAX), u64::MAX);
    assert_eq!(TimeUnit::Microsecond.duration_convert(u64::MAX), 18_446_744_073_709_551);
    assert_eq!(TimeUnit::Second.duration_convert(u64::MAX), 18_446_744_073);
    assert_eq!(TimeUnit::Day.duration_convert(u64::MAX), 213_503);
}

#[test]
fn saturating_nanos_keeps_what_fits() {
    assert_eq!(saturating_nanos(0), 0);
    assert_eq!(saturating_nanos(500), 500);
    assert_eq!(saturating_nanos(u64::MAX as u128), u64::MAX);
}

#[test]
fn saturating_nanos_caps_what_does_not_fit() {
    assert_eq!(saturating_nanos(u64::MAX as u128 + 1), u64::MAX);
    assert_eq!(saturating_nanos(u128::MAX), u64::MAX);
}
