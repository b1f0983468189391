use capture_metrics::buckets::batch_size_bucket_bounds;
use capture_metrics::buckets::batch_size_matcher;
use capture_metrics::buckets::latency_bucket_bounds_millis;
use capture_metrics::buckets::latency_metric_matcher;
use capture_metrics::buckets::MetricMatcher;
use capture_metrics::middleware::begin_request;
use capture_metrics::middleware::finish_request;
use capture_metrics::sink::record_completed_request;
use capture_metrics::sink::report_dropped_events;
use capture_metrics::sink::MetricsSink;
use metrics::Recorder;
use metrics_exporter_prometheus::Matcher;
use metrics_exporter_prometheus::PrometheusBuilder;

fn to_exporter_matcher(matcher: MetricMatcher) -> Matcher {
    match matcher {
        MetricMatcher::Full(name) => Matcher::Full(name),
        MetricMatcher::Suffix(suffix) => Matcher::Suffix(suffix),
    }
}

// One test only: it installs the process-wide recorder, which can happen
// once per process.
#[test]
fn observations_reach_the_installed_recorder_and_render() {
    let latency_seconds: Vec<f64> = latency_bucket_bounds_millis()
        .iter()
        .map(|millis| *millis as f64 / 1000.0)
        .collect();
    let batch_sizes: Vec<f64> = batch_size_bucket_bounds()
        .iter()
        .map(|items| *items as f64)
        .collect();
    let handle = PrometheusBuilder::new()
        .set_buckets_for_metric(to_exporter_matcher(latency_metric_matcher()), &latency_seconds)
        .unwrap()
        .set_buckets_for_metric(to_exporter_matcher(batch_size_matcher()), &batch_sizes)
        .unwrap()
        .install_recorder()
        .unwrap();

    // A request in flight has recorded nothing yet: a request cancelled
    // before the downstream handler returns leaves no trace.
    let in_flight = begin_request(
        "GET".to_string(),
        Some("/users/:id".to_string()),
        "/users/42".to_string(),
    );
    assert!(!handle.render().contains("http_requests_total"));

    // Completion records exactly one counter increment here and hands back
    // the one latency observation for the host to record.
    let labels = finish_request(in_flight, 200);
    let mut sink = MetricsSink::new();
    let observation = record_completed_request(&mut sink, labels);
    let duration_key = metrics::Key::from_parts(
        "http_requests_duration_seconds",
        vec![
            metrics::Label::new("method", observation.labels.method.clone()),
            metrics::Label::new("path", observation.labels.path.clone()),
            metrics::Label::new("status", observation.labels.status.clone()),
        ],
    );
    metrics::recorder().register_histogram(&duration_key).record(0.003);

    // Dropped events land on their own cause and leave other causes alone.
    report_dropped_events(&mut sink, "queue_full", 5);
    report_dropped_events(&mut sink, "batch_too_large", 2);

    let rendered = handle.render();

    let counter_line = rendered
        .lines()
        .find(|line| line.starts_with("http_requests_total{"))
        .unwrap();
    assert!(counter_line.contains("method=\"GET\""));
    assert!(counter_line.contains("path=\"/users/:id\""));
    assert!(counter_line.contains("status=\"200\""));
    assert!(counter_line.ends_with(" 1"));

    let bucket_lines: Vec<&str> = rendered
        .lines()
        .filter(|line| line.starts_with("http_requests_duration_seconds_bucket{"))
        .collect();
    // Thirteen configured buckets plus the +Inf bucket.
    assert_eq!(bucket_lines.len(), 14);
    assert!(bucket_lines.iter().any(|line| line.contains("le=\"0.005\"")));
    assert!(bucket_lines.iter().any(|line| line.contains("le=\"2.5\"")));
    assert!(bucket_lines.iter().any(|line| line.contains("le=\"60\"")));
    assert!(bucket_lines.iter().any(|line| line.contains("le=\"+Inf\"")));
    let count_line = rendered
        .lines()
        .find(|line| line.starts_with("http_requests_duration_seconds_count{"))
        .unwrap();
    assert!(count_line.ends_with(" 1"));

    let queue_full_line = rendered
        .lines()
        .find(|line| {
            line.starts_with("capture_events_dropped_total{") && line.contains("cause=\"queue_full\"")
        })
        .unwrap();
    assert!(queue_full_line.ends_with(" 5"));
    let batch_too_large_line = rendered
        .lines()
        .find(|line| {
            line.starts_with("capture_events_dropped_total{")
                && line.contains("cause=\"batch_too_large\"")
        })
        .unwrap();
    assert!(batch_too_large_line.ends_with(" 2"));
}
