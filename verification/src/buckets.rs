//! Histogram bucket configuration installed once at process start.
//!
//! Two bucket tables are registered before any request is recorded: one for
//! the request latency histogram, matched by its exact name, and one for
//! every batch-size style histogram, matched by a name suffix. Bucket bounds
//! are held here as integers; the exporter takes the latency bounds in
//! seconds, and dividing each millisecond bound by one thousand in `f64`
//! rounds to the same value the corresponding decimal literal in seconds
//! denotes.

use vstd::prelude::*;
use vstd::string::StrSliceExecFns;
use vstd::string::StringExecFns;

verus! {

/// Selects which metric names a bucket table applies to: either one exact
/// metric name, or every name that ends in the given suffix.
pub enum MetricMatcher {
    Full(String),
    Suffix(String),
}

/// Whether a matcher selects a metric name.
pub open spec fn matcher_selects(matcher: MetricMatcher, name: Seq<char>) -> bool {
    match matcher {
        MetricMatcher::Full(pattern) => name == pattern@,
        MetricMatcher::Suffix(pattern) => pattern@.len() <= name.len() && name.skip(
            name.len() - pattern@.len(),
        ) == pattern@,
    }
}

fn str_chars_equal(a: &str, b: &str) -> (r: bool)
    ensures
        r == (a@ == b@),
{
    let a_len = a.unicode_len();
    let b_len = b.unicode_len();
    if a_len != b_len {
        return false;
    }
    let mut i: usize = 0;
    while i < a_len
        invariant
            i <= a_len,
            a_len == a@.len(),
            b_len == b@.len(),
            a_len == b_len,
            forall|j: int| 0 <= j < i ==> a@[j] == b@[j],
        decreases a_len - i,
    {
        if a.get_char(i) != b.get_char(i) {
            return false;
        }
        i += 1;
    }
    proof {
        assert(a@ =~= b@);
    }
    true
}

fn str_ends_with(name: &str, pattern: &str) -> (r: bool)
    ensures
        r == (pattern@.len() <= name@.len() && name@.skip(name@.len() - pattern@.len())
            == pattern@),
{
    let name_len = name.unicode_len();
    let pattern_len = pattern.unicode_len();
    if pattern_len > name_len {
        return false;
    }
    let offset = name_len - pattern_len;
    let ghost tail = name@.skip(name@.len() - pattern@.len());
    let mut i: usize = 0;
    while i < pattern_len
        invariant
            i <= pattern_len,
            name_len == name@.len(),
            pattern_len == pattern@.len(),
            pattern_len <= name_len,
            offset == name_len - pattern_len,
            tail == name@.skip(name@.len() - pattern@.len()),
            forall|j: int| 0 <= j < i ==> name@[offset + j] == pattern@[j],
        decreases pattern_len - i,
    {
        if name.get_char(offset + i) != pattern.get_char(i) {
            proof {
                assert(tail[i as int] == name@[offset + i]);
            }
            return false;
        }
        i += 1;
    }
    proof {
        assert(tail =~= pattern@);
    }
    true
}

/// Whether the matcher selects the given metric name.
pub fn matcher_applies(matcher: &MetricMatcher, name: &str) -> (r: bool)
    ensures
        r == matcher_selects(*matcher, name@),
{
    match matcher {
        MetricMatcher::Full(pattern) => str_chars_equal(name, pattern.as_str()),
        MetricMatcher::Suffix(pattern) => str_ends_with(name, pattern.as_str()),
    }
}

/// The exact-name matcher under which the latency bucket table is
/// registered.
pub fn latency_metric_matcher() -> (matcher: MetricMatcher)
    ensures
        matcher matches MetricMatcher::Full(pattern) && pattern@
            == "http_requests_duration_seconds"@,
{
    MetricMatcher::Full(String::from_str("http_requests_duration_seconds"))
}

/// The suffix matcher under which the batch-size bucket table is registered:
/// it selects every metric whose name ends in `_batch_size`.
pub fn batch_size_matcher() -> (matcher: MetricMatcher)
    ensures
        matcher matches MetricMatcher::Suffix(pattern) && pattern@ == "_batch_size"@,
{
    MetricMatcher::Suffix(String::from_str("_batch_size"))
}

/// Upper bounds, in milliseconds, of the latency histogram buckets:
/// exponential spacing for sub-second latencies, then two coarser points so
/// the largest bucket lines up with the 60-second ingress timeout ceiling.
pub open spec fn latency_bucket_millis() -> Seq<u64> {
    seq![
        5u64,
        10u64,
        25u64,
        50u64,
        100u64,
        250u64,
        500u64,
        1000u64,
        2500u64,
        5000u64,
        10000u64,
        30000u64,
        60000u64,
    ]
}

/// Upper bounds, in items, of every batch-size histogram's buckets.
pub open spec fn batch_size_bucket_items() -> Seq<u64> {
    seq![1u64, 10u64, 25u64, 50u64, 75u64, 100u64, 250u64, 500u64, 750u64, 1000u64]
}

/// The latency bucket upper bounds, in milliseconds.
pub fn latency_bucket_bounds_millis() -> (bounds: Vec<u64>)
    ensures
        bounds@ == latency_bucket_millis(),
{
    let mut bounds: Vec<u64> = Vec::new();
    bounds.push(5);
    bounds.push(10);
    bounds.push(25);
    bounds.push(50);
    bounds.push(100);
    bounds.push(250);
    bounds.push(500);
    bounds.push(1000);
    bounds.push(2500);
    bounds.push(5000);
    bounds.push(10000);
    bounds.push(30000);
    bounds.push(60000);
    proof {
        assert(bounds@ =~= latency_bucket_millis());
    }
    bounds
}

/// The batch-size bucket upper bounds, in items.
pub fn batch_size_bucket_bounds() -> (bounds: Vec<u64>)
    ensures
        bounds@ == batch_size_bucket_items(),
{
    let mut bounds: Vec<u64> = Vec::new();
    bounds.push(1);
    bounds.push(10);
    bounds.push(25);
    bounds.push(50);
    bounds.push(75);
    bounds.push(100);
    bounds.push(250);
    bounds.push(500);
    bounds.push(750);
    bounds.push(1000);
    proof {
        assert(bounds@ =~= batch_size_bucket_items());
    }
    bounds
}

/// Law: the latency bucket bounds are strictly increasing.
pub proof fn lemma_latency_buckets_strictly_increasing()
    ensures
        forall|i: int, j: int|
            0 <= i < j < latency_bucket_millis().len() ==> #[trigger] latency_bucket_millis()[i]
                < #[trigger] latency_bucket_millis()[j],
{
}

/// Law: the batch-size bucket bounds are strictly increasing.
pub proof fn lemma_batch_size_buckets_strictly_increasing()
    ensures
        forall|i: int, j: int|
            0 <= i < j < batch_size_bucket_items().len() ==> #[trigger] batch_size_bucket_items()[i]
                < #[trigger] batch_size_bucket_items()[j],
{
}

} // verus!
