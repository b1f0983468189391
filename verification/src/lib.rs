//! Request-level HTTP metrics instrumentation.
//!
//! The crate holds the decision core of an HTTP metrics layer: the labeling
//! policy for request observations (`labels`, `middleware`), the histogram
//! bucket tables installed once at startup (`buckets`), the recording calls
//! into the process-wide metrics recorder (`sink`), and a ghost model of the
//! registry that states what each recording call contributes (`registry`).

pub mod buckets;
pub mod labels;
pub mod middleware;
pub mod registry;
pub mod sink;
