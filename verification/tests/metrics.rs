use agave_votor_scope::metrics::{micros_saturating, Metrics, SampleHistogram};
use hdrhistogram::Histogram;
use std::time::Duration;

#[test]
fn new_metrics_are_empty() {
    let m = Metrics::new();
    assert_eq!(m.count, 0);
    assert_eq!(m.schedule_delay.histogram.len(), 0);
    assert_eq!(m.execute.histogram.len(), 0);
    assert_eq!(m.end_to_end.histogram.len(), 0);
    assert!(m.end_to_end.histogram.is_auto_resize());
    assert_eq!(m.execute.histogram.sigfig(), 3);
}

#[test]
fn record_counts_batch_in_microseconds() {
    let mut m = Metrics::new();
    m.record(
        Duration::from_micros(1500),
        Duration::from_millis(2),
        Duration::from_nanos(3_999),
    );
    assert_eq!(m.count, 1);
    assert_eq!(m.schedule_delay.histogram.len(), 1);
    assert_eq!(m.schedule_delay.histogram.max(), 1500);
    assert_eq!(m.execute.histogram.max(), 2000);
    assert_eq!(m.end_to_end.histogram.max(), 3);
    assert_eq!(m.end_to_end.histogram.count_at(3), 1);
}

#[test]
fn record_micros_and_many_batches() {
    let mut m = Metrics::new();
    for i in 0..10u64 {
        m.record_micros(i, 10 * i, 100 * i);
    }
    assert_eq!(m.count, 10);
    assert_eq!(m.schedule_delay.histogram.len(), 10);
    assert_eq!(m.execute.histogram.max(), 90);
    assert_eq!(m.end_to_end.histogram.max(), 900);
    assert_eq!(m.execute.histogram.count_at(50), 1);
}

#[test]
fn large_values_grow_the_histogram() {
    let mut m = Metrics::new();
    m.record_micros(10_000_000, 1, u64::MAX);
    assert_eq!(m.count, 1);
    assert_eq!(m.end_to_end.histogram.len(), 1);
    assert!(m.schedule_delay.histogram.equivalent(m.schedule_delay.histogram.max(), 10_000_000));
}

#[test]
fn saturating_micros() {
    assert_eq!(micros_saturating(0), 0);
    assert_eq!(micros_saturating(42), 42);
    assert_eq!(micros_saturating(u64::MAX as u128), u64::MAX);
    assert_eq!(micros_saturating(u64::MAX as u128 + 1), u64::MAX);
    assert_eq!(micros_saturating(u128::MAX), u64::MAX);
}

#[test]
fn huge_duration_saturates() {
    let mut m = Metrics::new();
    m.record(Duration::MAX, Duration::ZERO, Duration::from_secs(1));
    assert_eq!(m.schedule_delay.histogram.max(), u64::MAX);
    assert_eq!(m.execute.histogram.max(), 0);
    assert_eq!(m.end_to_end.histogram.max(), m.end_to_end.histogram.highest_equivalent(1_000_000));
}

#[test]
fn small_values_keep_their_own_bucket() {
    let mut m = Metrics::new();
    m.record(
        Duration::from_micros(5),
        Duration::from_micros(7),
        Duration::from_micros(11),
    );
    assert_eq!(m.count, 1);
    assert_eq!(m.schedule_delay.histogram.count_at(5), 1);
    assert_eq!(m.execute.histogram.count_at(7), 1);
    assert_eq!(m.end_to_end.histogram.count_at(11), 1);
    assert_eq!(m.schedule_delay.histogram.count_at(4), 0);
    assert_eq!(m.execute.histogram.len(), 1);
}

#[test]
fn new_histograms_keep_three_digits() {
    let m = Metrics::new();
    assert_eq!(m.schedule_delay.histogram.sigfig(), 3);
    assert_eq!(m.execute.histogram.sigfig(), 3);
    assert_eq!(m.end_to_end.histogram.sigfig(), 3);
    assert_eq!(m.schedule_delay.histogram.lowest_equivalent(2047), 2047);
}

#[test]
fn histogram_that_cannot_hold_a_value_is_left_unchanged() {
    let mut m = Metrics::new();
    m.schedule_delay = SampleHistogram {
        histogram: Histogram::new_with_max(10, 3).unwrap(),
    };
    m.record_micros(1_000_000, 4, 5);
    assert_eq!(m.count, 1);
    assert_eq!(m.schedule_delay.histogram.len(), 0);
    assert_eq!(m.execute.histogram.count_at(4), 1);
    assert_eq!(m.end_to_end.histogram.count_at(5), 1);
    m.record_micros(3, 4, 5);
    assert_eq!(m.count, 2);
    assert_eq!(m.schedule_delay.histogram.count_at(3), 1);
}
