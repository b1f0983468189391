//! The decision core of the request instrumentation middleware.
//!
//! The host wraps each request around these two steps: `begin_request`
//! before delegating to the downstream handler, `finish_request` once the
//! handler has produced a response. A request cancelled before the handler
//! returns never reaches `finish_request`, so nothing is recorded for it.

use crate::labels::derive_path_label;
use crate::labels::status_code_digits;
use crate::labels::status_label;
use crate::labels::RequestLabels;
use vstd::prelude::*;

verus! {

/// The labels fixed at the start of a request, before the downstream
/// handler runs: the HTTP method, and the `path` label.
pub struct InFlightRequest {
    pub method: String,
    pub path: String,
}

/// Fixes the labels that are known before delegating downstream. The `path`
/// label is the route template the router matched, when there is one, else
/// the raw request path.
pub fn begin_request(method: String, matched_route: Option<String>, raw_path: String) -> (r:
    InFlightRequest)
    ensures
        r.method@ == method@,
        r.path@ == match matched_route {
            Some(template) => template@,
            None => raw_path@,
        },
{
    InFlightRequest { method, path: derive_path_label(matched_route, raw_path) }
}

/// Completes the label set once the downstream handler has produced a
/// response with the given status code: the `status` label is exactly the
/// three decimal digits of the code.
pub fn finish_request(request: InFlightRequest, status_code: u16) -> (labels: RequestLabels)
    requires
        100 <= status_code <= 999,
    ensures
        labels@.method == request.method@,
        labels@.path == request.path@,
        labels@.status == status_code_digits(status_code as int),
        labels@.status.len() == 3,
{
    RequestLabels {
        method: request.method,
        path: request.path,
        status: status_label(status_code),
    }
}

} // verus!
