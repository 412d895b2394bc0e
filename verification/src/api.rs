//! The calls that are made to the API of an otel-worker.
use crate::commands::util::Timestamp;
use vstd::prelude::*;

verus! {

/// A call of the API.
#[derive(Debug)]
pub enum ApiCall {
    /// The traces, no more than `limit` and none from after `time`, where these
    /// are given.
    TraceList { limit: Option<u32>, time: Option<Timestamp> },
    /// One trace.
    TraceGet { trace_id: String },
    /// Deletes all spans of one trace.
    TraceDelete { trace_id: String },
    /// The spans of one trace.
    SpanList { trace_id: String },
}

} // verus!
