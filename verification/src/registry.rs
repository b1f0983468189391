//! Ghost model of the process-wide metrics registry.
//!
//! The registry itself is owned by the metrics recorder; this crate only
//! reports observations into it. The model mirrors, per metric series, how
//! much a component has contributed: the running total of each counter and
//! the number of observations fed to each histogram. The laws below state
//! that request instrumentation and dropped-event reporting touch exactly
//! the series they name, and that concurrent observations aggregate without
//! loss in either order.

use crate::labels::RequestLabelsView;
use vstd::prelude::*;

verus! {

/// Identity of one metric series: a metric name plus its ordered label pairs
/// (label key, label value).
pub struct MetricKey {
    pub name: Seq<char>,
    pub labels: Seq<(Seq<char>, Seq<char>)>,
}

/// The label pairs attached to both per-request series.
pub open spec fn http_request_label_pairs(l: RequestLabelsView) -> Seq<(Seq<char>, Seq<char>)> {
    seq![("method"@, l.method), ("path"@, l.path), ("status"@, l.status)]
}

/// The series of the request counter for one label set.
pub open spec fn http_total_key(l: RequestLabelsView) -> MetricKey {
    MetricKey { name: "http_requests_total"@, labels: http_request_label_pairs(l) }
}

/// The series of the request latency histogram for one label set.
pub open spec fn http_duration_key(l: RequestLabelsView) -> MetricKey {
    MetricKey { name: "http_requests_duration_seconds"@, labels: http_request_label_pairs(l) }
}

/// The series of the dropped-events counter for one cause.
pub open spec fn dropped_events_key(cause: Seq<char>) -> MetricKey {
    MetricKey { name: "capture_events_dropped_total"@, labels: seq![("cause"@, cause)] }
}

/// What a component has contributed to the registry: counter totals and
/// histogram observation counts, per series. Histogram sample values are
/// floating point and live only in the exporter; the model tracks how many
/// observations each series received.
#[verifier::ext_equal]
pub struct RegistryModel {
    pub counters: Map<MetricKey, nat>,
    pub histogram_counts: Map<MetricKey, nat>,
}

impl RegistryModel {
    /// No contribution yet.
    pub open spec fn empty() -> RegistryModel {
        RegistryModel { counters: Map::empty(), histogram_counts: Map::empty() }
    }

    /// The running total of one counter series.
    pub open spec fn counter(self, key: MetricKey) -> nat {
        if self.counters.dom().contains(key) {
            self.counters[key]
        } else {
            0
        }
    }

    /// The number of observations one histogram series received.
    pub open spec fn histogram_count(self, key: MetricKey) -> nat {
        if self.histogram_counts.dom().contains(key) {
            self.histogram_counts[key]
        } else {
            0
        }
    }

    /// The model after one counter increment by `amount`.
    pub open spec fn bump_counter(self, key: MetricKey, amount: nat) -> RegistryModel {
        RegistryModel {
            counters: self.counters.insert(key, self.counter(key) + amount),
            histogram_counts: self.histogram_counts,
        }
    }

    /// The model after one histogram observation.
    pub open spec fn observe_histogram(self, key: MetricKey) -> RegistryModel {
        RegistryModel {
            counters: self.counters,
            histogram_counts: self.histogram_counts.insert(key, self.histogram_count(key) + 1),
        }
    }

    /// The model after the two observations owed for one completed request:
    /// one counter increment and one histogram observation, both under the
    /// same label pairs.
    pub open spec fn apply_completed_request(self, l: RequestLabelsView) -> RegistryModel {
        self.bump_counter(http_total_key(l), 1).observe_histogram(http_duration_key(l))
    }

    /// The model after `n` completed requests with one label set.
    pub open spec fn apply_completed_requests(self, l: RequestLabelsView, n: nat) -> RegistryModel
        decreases n,
    {
        if n == 0 {
            self
        } else {
            self.apply_completed_request(l).apply_completed_requests(l, (n - 1) as nat)
        }
    }
}

/// Law: one completed request adds exactly one increment to its request
/// counter series and exactly one observation to its latency histogram
/// series, both under the same label pairs, and changes no other series.
pub proof fn lemma_completed_request_records_once(m: RegistryModel, l: RequestLabelsView)
    ensures
        m.apply_completed_request(l).counter(http_total_key(l)) == m.counter(http_total_key(l))
            + 1,
        m.apply_completed_request(l).histogram_count(http_duration_key(l)) == m.histogram_count(
            http_duration_key(l),
        ) + 1,
        http_total_key(l).labels == http_duration_key(l).labels,
        forall|k: MetricKey|
            k != http_total_key(l) ==> #[trigger] m.apply_completed_request(l).counter(k)
                == m.counter(k),
        forall|k: MetricKey|
            k != http_duration_key(l) ==> #[trigger] m.apply_completed_request(l).histogram_count(
                k,
            ) == m.histogram_count(k),
{
}

/// Law: reporting dropped events adds exactly the reported quantity to the
/// series for that cause, leaves the series of every other cause unchanged,
/// and touches no histogram.
pub proof fn lemma_dropped_events_isolated(
    m: RegistryModel,
    cause: Seq<char>,
    other_cause: Seq<char>,
    quantity: nat,
)
    requires
        other_cause != cause,
    ensures
        m.bump_counter(dropped_events_key(cause), quantity).counter(dropped_events_key(cause))
            == m.counter(dropped_events_key(cause)) + quantity,
        m.bump_counter(dropped_events_key(cause), quantity).counter(
            dropped_events_key(other_cause),
        ) == m.counter(dropped_events_key(other_cause)),
        m.bump_counter(dropped_events_key(cause), quantity).histogram_counts
            == m.histogram_counts,
{
    assert(dropped_events_key(other_cause) != dropped_events_key(cause)) by {
        assert(dropped_events_key(cause).labels[0].1 == cause);
        assert(dropped_events_key(other_cause).labels[0].1 == other_cause);
    }
}

/// Law: `n` completed requests with one label set raise its request counter
/// and its histogram observation count by exactly `n`: no update is lost and
/// none is duplicated, however the requests interleave.
pub proof fn lemma_completed_requests_aggregate(m: RegistryModel, l: RequestLabelsView, n: nat)
    ensures
        m.apply_completed_requests(l, n).counter(http_total_key(l)) == m.counter(http_total_key(l))
            + n,
        m.apply_completed_requests(l, n).histogram_count(http_duration_key(l))
            == m.histogram_count(http_duration_key(l)) + n,
    decreases n,
{
    if n > 0 {
        lemma_completed_request_records_once(m, l);
        lemma_completed_requests_aggregate(m.apply_completed_request(l), l, (n - 1) as nat);
    }
}

/// Law: the observations of two completed requests commute: recording them
/// in either order leaves the registry model the same, so no ordering of
/// concurrently completing requests matters.
pub proof fn lemma_completed_requests_commute(
    m: RegistryModel,
    l1: RequestLabelsView,
    l2: RequestLabelsView,
)
    ensures
        m.apply_completed_request(l1).apply_completed_request(l2) == m.apply_completed_request(
            l2,
        ).apply_completed_request(l1),
{
    let a = m.apply_completed_request(l1).apply_completed_request(l2);
    let b = m.apply_completed_request(l2).apply_completed_request(l1);
    assert(a.counters =~= b.counters);
    assert(a.histogram_counts =~= b.histogram_counts);
    assert(a =~= b);
}

} // verus!
