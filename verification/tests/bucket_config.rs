use capture_metrics::buckets::batch_size_bucket_bounds;
use capture_metrics::buckets::batch_size_matcher;
use capture_metrics::buckets::latency_bucket_bounds_millis;
use capture_metrics::buckets::latency_metric_matcher;
use capture_metrics::buckets::matcher_applies;
use capture_metrics::buckets::MetricMatcher;

#[test]
fn latency_buckets_are_exactly_the_configured_seconds() {
    let seconds: Vec<f64> = latency_bucket_bounds_millis()
        .iter()
        .map(|millis| *millis as f64 / 1000.0)
        .collect();
    assert_eq!(
        seconds,
        vec![0.005, 0.01, 0.025, 0.05, 0.1, 0.25, 0.5, 1.0, 2.5, 5.0, 10.0, 30.0, 60.0]
    );
}

#[test]
fn batch_size_buckets_are_exactly_the_configured_counts() {
    let counts: Vec<f64> = batch_size_bucket_bounds()
        .iter()
        .map(|items| *items as f64)
        .collect();
    assert_eq!(
        counts,
        vec![1.0, 10.0, 25.0, 50.0, 75.0, 100.0, 250.0, 500.0, 750.0, 1000.0]
    );
}

#[test]
fn bucket_bounds_strictly_increase() {
    let latency = latency_bucket_bounds_millis();
    assert!(latency.windows(2).all(|pair| pair[0] < pair[1]));
    let batch = batch_size_bucket_bounds();
    assert!(batch.windows(2).all(|pair| pair[0] < pair[1]));
}

#[test]
fn latency_matcher_selects_the_exact_metric_name_only() {
    let matcher = latency_metric_matcher();
    assert!(matches!(
        &matcher,
        MetricMatcher::Full(name) if name == "http_requests_duration_seconds"
    ));
    assert!(matcher_applies(&matcher, "http_requests_duration_seconds"));
    assert!(!matcher_applies(&matcher, "http_requests_duration_seconds_total"));
    assert!(!matcher_applies(&matcher, "http_requests_duration"));
    assert!(!matcher_applies(&matcher, ""));
}

#[test]
fn batch_size_matcher_selects_every_name_with_the_suffix() {
    let matcher = batch_size_matcher();
    assert!(matches!(
        &matcher,
        MetricMatcher::Suffix(suffix) if suffix == "_batch_size"
    ));
    assert!(matcher_applies(&matcher, "ingestion_batch_size"));
    assert!(matcher_applies(&matcher, "export_batch_size"));
    assert!(matcher_applies(&matcher, "_batch_size"));
    assert!(!matcher_applies(&matcher, "batch_size"));
    assert!(!matcher_applies(&matcher, "_batch_size_bytes"));
    assert!(!matcher_applies(&matcher, "size"));
}
