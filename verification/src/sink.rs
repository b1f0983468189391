//! Recording calls into the process-wide metrics recorder.
//!
//! A `MetricsSink` is the handle through which one component reports
//! observations; its view is the registry model of what went through it.
//! The model is written only by the trusted emission wrappers, so a
//! contract over it can be met only by making the outside call. Counter
//! increments go to the recorder here. The latency sample of a completed
//! request is a floating-point value, which this crate does not handle, so
//! it is handed back to the host as a `DurationObservation` to record
//! against the exporter; the sink books no histogram observation of its
//! own.

use crate::labels::RequestLabels;
use crate::registry::dropped_events_key;
use crate::registry::http_duration_key;
use crate::registry::http_total_key;
use crate::registry::MetricKey;
use crate::registry::RegistryModel;
use vstd::prelude::*;

verus! {

/// A handle through which one component reports observations. The view is
/// the registry model of everything emitted through this handle since it
/// was created; only the emission wrappers advance it. The histogram
/// component stays empty: latency samples are handed to the host rather
/// than recorded here.
pub struct MetricsSink {
    model: Ghost<RegistryModel>,
}

impl View for MetricsSink {
    type V = RegistryModel;

    closed spec fn view(&self) -> RegistryModel {
        self.model@
    }
}

impl MetricsSink {
    /// A fresh handle that has reported nothing yet.
    pub fn new() -> (sink: MetricsSink)
        ensures
            sink@ == RegistryModel::empty(),
    {
        MetricsSink { model: Ghost(RegistryModel::empty()) }
    }
}

/// Relies on metrics::try_recorder, metrics::Label::new,
/// metrics::Key::from_parts, metrics::Recorder::register_counter and
/// metrics::Counter::increment: increments the counter named `name`, tagged
/// with the single label pair `(label_key, label_value)`, by `amount` on the
/// process-wide recorder; a silent no-op when no recorder is installed. The
/// sink's model books exactly this increment.
#[verifier::external_body]
fn emit_counter_one_label(
    sink: &mut MetricsSink,
    name: &'static str,
    label_key: &'static str,
    label_value: &'static str,
    amount: u64,
)
    ensures
        final(sink)@ == old(sink)@.bump_counter(
            (MetricKey { name: name@, labels: seq![(label_key@, label_value@)] }),
            amount as nat,
        ),
{
    let _ = sink;
    if let Some(recorder) = metrics::try_recorder() {
        let labels = vec![metrics::Label::new(label_key, label_value)];
        let key = metrics::Key::from_parts(name, labels);
        recorder.register_counter(&key).increment(amount);
    }
}

/// Relies on the same metrics items as `emit_counter_one_label`: increments
/// the counter named `name`, tagged with the three label pairs given, by
/// `amount` on the process-wide recorder; a silent no-op when no recorder is
/// installed. The sink's model books exactly this increment.
#[verifier::external_body]
fn emit_counter_three_labels(
    sink: &mut MetricsSink,
    name: &'static str,
    key_one: &'static str,
    value_one: String,
    key_two: &'static str,
    value_two: String,
    key_three: &'static str,
    value_three: String,
    amount: u64,
)
    ensures
        final(sink)@ == old(sink)@.bump_counter(
            (MetricKey {
                name: name@,
                labels: seq![
                    (key_one@, value_one@),
                    (key_two@, value_two@),
                    (key_three@, value_three@),
                ],
            }),
            amount as nat,
        ),
{
    let _ = sink;
    if let Some(recorder) = metrics::try_recorder() {
        let labels = vec![
            metrics::Label::new(key_one, value_one),
            metrics::Label::new(key_two, value_two),
            metrics::Label::new(key_three, value_three),
        ];
        let key = metrics::Key::from_parts(name, labels);
        recorder.register_counter(&key).increment(amount);
    }
}

/// The one latency observation owed for a completed request. The sample
/// value is floating-point wall-clock seconds, so the host records it
/// against the exporter, tagged with exactly these labels.
pub struct DurationObservation {
    pub labels: RequestLabels,
}

/// Records the metrics owed for one completed request: exactly one
/// increment of `http_requests_total` goes to the process-wide recorder
/// here, and exactly one observation of `http_requests_duration_seconds` is
/// handed back for the host to record with the measured latency, both under
/// the same label pairs. Once the host records the handed-back observation,
/// the combined effect on the registry model is exactly
/// `apply_completed_request`.
pub fn record_completed_request(sink: &mut MetricsSink, labels: RequestLabels) -> (observation:
    DurationObservation)
    ensures
        final(sink)@ == old(sink)@.bump_counter(http_total_key(labels@), 1),
        final(sink)@.observe_histogram(http_duration_key(labels@)) == old(
            sink,
        )@.apply_completed_request(labels@),
        observation.labels@ == labels@,
{
    emit_counter_three_labels(
        sink,
        "http_requests_total",
        "method",
        labels.method.clone(),
        "path",
        labels.path.clone(),
        "status",
        labels.status.clone(),
        1,
    );
    DurationObservation { labels }
}

/// Reports that `quantity` events were discarded for the given cause:
/// increments `capture_events_dropped_total{cause}` by exactly `quantity`,
/// and touches no other series. Fire and forget: there is no failure mode,
/// and a missing recorder loses the increment silently.
pub fn report_dropped_events(sink: &mut MetricsSink, cause: &'static str, quantity: u64)
    ensures
        final(sink)@ == old(sink)@.bump_counter(dropped_events_key(cause@), quantity as nat),
{
    emit_counter_one_label(sink, "capture_events_dropped_total", "cause", cause, quantity);
}

} // verus!
