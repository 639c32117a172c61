use vstd::prelude::*;

use crate::time::Timestamp;

verus! {

/// The fully-resolved configuration of one retrieval run, as the
/// command-line layer hands it over: which group to read, how to narrow the
/// query, the time bounds, and the rendering policy.
///
/// `stream_name` is required only when no `filter_expression` is given;
/// `watch` is accepted but a single bounded pass is the only supported
/// behavior.
#[derive(Debug)]
pub struct GetOptions {
    pub group_name: String,
    pub stream_name: Option<String>,
    pub filter_expression: Option<String>,
    pub start_time: Option<Timestamp>,
    pub end_time: Option<Timestamp>,
    pub watch: bool,
    pub use_prefix: bool,
}

} // verus!
