//! Traces and spans as resources of the MCP server.
use super::error::HandlerError;
use super::messages::{ListResourcesResult, ReadResourceResult, Resource, TextResourceContents};
use crate::api::ApiCall;
use crate::text::{
    join, law_split_is_at_the_first_separator, split_first, split_once, str_eq,
};
use vstd::prelude::*;

verus! {

/// How many traces are listed.
pub const LISTED_TRACES: u32 = 50;

/// The URI of the resource that a trace is.
pub open spec fn trace_uri(trace_id: Seq<char>) -> Seq<char> {
    "trace://"@ + trace_id
}

/// The URI of the resource that a span is.
pub open spec fn span_uri(span_id: Seq<char>) -> Seq<char> {
    "span://"@ + span_id
}

/// The resource is this trace.
pub open spec fn is_trace(resource: Resource, trace_id: Seq<char>) -> bool {
    &&& resource.name@ == "trace "@ + trace_id
    &&& resource.uri@ == trace_uri(trace_id)
    &&& resource.description is None
    &&& resource.mime_type is None
    &&& resource.size is None
}

/// The result lists exactly these traces, in their order, on its only page.
pub open spec fn lists_traces(result: ListResourcesResult, traces: Seq<String>) -> bool {
    &&& result.next_cursor is None
    &&& result.resources@.len() == traces.len()
    &&& forall|i: int|
        0 <= i < traces.len() ==> is_trace(#[trigger] result.resources@[i], traces[i]@)
}

/// A span: its id, and all of it as JSON.
#[derive(Debug)]
pub struct SpanText {
    pub span_id: String,
    pub json: String,
}

/// The contents are this span.
pub open spec fn is_span(contents: TextResourceContents, span: SpanText) -> bool {
    &&& contents.mime_type matches Some(mime_type) && mime_type@ == "application/json"@
    &&& contents.text@ == span.json@
    &&& contents.uri@ == span_uri(span.span_id@)
}

/// The result holds exactly these spans, in their order.
pub open spec fn holds_spans(result: ReadResourceResult, spans: Seq<SpanText>) -> bool {
    &&& result.contents@.len() == spans.len()
    &&& forall|i: int| 0 <= i < spans.len() ==> is_span(#[trigger] result.contents@[i], spans[i])
}

/// What a URI asks for.
pub enum ReadTarget {
    /// The spans of the trace with this id.
    Trace(Seq<char>),
    /// Nothing: it does not name a kind and something of that kind.
    Malformed,
    /// Something of a kind that there is not.
    UnknownKind(Seq<char>),
}

/// What a URI asks for: the kind stands before the first `://`, and what is
/// wanted of that kind behind it.
pub open spec fn read_target(uri: Seq<char>) -> ReadTarget {
    match split_first(uri, "://"@) {
        None => ReadTarget::Malformed,
        Some((kind, name)) => if kind == "trace"@ {
            ReadTarget::Trace(name)
        } else {
            ReadTarget::UnknownKind(kind)
        },
    }
}

/// The call that the list of resources is made from: the traces, no more than
/// [`LISTED_TRACES`] of them.
pub fn handle_resources_list() -> (call: ApiCall)
    ensures
        call == (ApiCall::TraceList { limit: Some(LISTED_TRACES), time: None }),
{
    ApiCall::TraceList { limit: Some(LISTED_TRACES), time: None }
}

/// The resources that the ids of the traces come to. A failure of the API is
/// passed on in its own words.
pub fn resources_list_result(traces: Result<Vec<String>, String>) -> (result: Result<
    ListResourcesResult,
    HandlerError,
>)
    ensures
        match traces {
            Ok(traces) => result matches Ok(result) && lists_traces(result, traces@),
            Err(text) => result == Err::<ListResourcesResult, HandlerError>(
                HandlerError::Upstream(text),
            ),
        },
        traces matches Ok(traces) ==> (result matches Ok(result) && {
            &&& result.resources@.len() == traces@.len()
            &&& forall|i: int|
                0 <= i < traces@.len() ==> (#[trigger] result.resources@[i]).uri@ == "trace://"@
                    + traces@[i]@
        }),
{
    match traces {
        Ok(traces) => {
            let mut resources: Vec<Resource> = Vec::new();
            let mut i: usize = 0;
            while i < traces.len()
                invariant
                    i <= traces@.len(),
                    resources@.len() == i,
                    forall|j: int|
                        0 <= j < i ==> is_trace(#[trigger] resources@[j], traces@[j]@),
                decreases traces@.len() - i,
            {
                let resource = Resource {
                    name: join("trace ", traces[i].as_str()),
                    uri: join("trace://", traces[i].as_str()),
                    description: None,
                    mime_type: None,
                    size: None,
                };
                resources.push(resource);
                i = i + 1;
            }
            Ok(ListResourcesResult { next_cursor: None, resources })
        },
        Err(text) => Err(HandlerError::Upstream(text)),
    }
}

/// The trace whose spans a client wants to read.
pub fn handle_resources_read(uri: String) -> (trace_id: Result<String, HandlerError>)
    ensures
        match read_target(uri@) {
            ReadTarget::Trace(id) => trace_id matches Ok(trace_id) && trace_id@ == id,
            ReadTarget::Malformed => trace_id matches Err(HandlerError::InvalidUri),
            ReadTarget::UnknownKind(kind) => {
                trace_id matches Err(HandlerError::UnknownResourceType(text)) && text@ == kind
            },
        },
{
    match split_once(uri.as_str(), "://") {
        None => Err(HandlerError::InvalidUri),
        Some((kind, name)) => {
            if str_eq(kind, "trace") {
                Ok(name.to_owned())
            } else {
                Err(HandlerError::UnknownResourceType(kind.to_owned()))
            }
        },
    }
}

/// The contents that the spans of a trace come to.
pub fn resources_read_result(spans: Vec<SpanText>) -> (result: ReadResourceResult)
    ensures
        holds_spans(result, spans@),
        result.contents@.len() == spans@.len(),
        forall|i: int|
            0 <= i < spans@.len() ==> {
                &&& (#[trigger] result.contents@[i]).text@ == spans@[i].json@
                &&& result.contents@[i].uri@ == "span://"@ + spans@[i].span_id@
            },
{
    let mut contents: Vec<TextResourceContents> = Vec::new();
    let mut i: usize = 0;
    while i < spans.len()
        invariant
            i <= spans@.len(),
            contents@.len() == i,
            forall|j: int| 0 <= j < i ==> is_span(#[trigger] contents@[j], spans@[j]),
        decreases spans@.len() - i,
    {
        let item = TextResourceContents {
            mime_type: Some("application/json".to_owned()),
            text: spans[i].json.clone(),
            uri: join("span://", spans[i].span_id.as_str()),
        };
        contents.push(item);
        i = i + 1;
    }
    ReadResourceResult { contents }
}

/// The list has one resource for each trace and none besides, in their order: named
/// and addressed after the trace, and with nothing else said of it.
pub proof fn law_every_trace_is_listed(result: ListResourcesResult, traces: Seq<String>)
    requires
        lists_traces(result, traces),
    ensures
        result.resources@.len() == traces.len(),
        result.resources@.map_values(|resource: Resource| resource.uri@) == traces.map_values(
            |trace: String| "trace://"@ + trace@,
        ),
        result.resources@.map_values(|resource: Resource| resource.name@) == traces.map_values(
            |trace: String| "trace "@ + trace@,
        ),
        forall|i: int|
            0 <= i < traces.len() ==> {
                &&& (#[trigger] result.resources@[i]).description is None
                &&& result.resources@[i].mime_type is None
                &&& result.resources@[i].size is None
            },
        result.next_cursor is None,
{
    assert forall|i: int| 0 <= i < traces.len() implies is_trace(
        #[trigger] result.resources@[i],
        traces[i]@,
    ) by {}
}

/// Two lists of traces are listed one behind the other where they are asked for as
/// one: nothing in a list depends on what else is in it.
pub proof fn law_lists_join(
    left: ListResourcesResult,
    left_traces: Seq<String>,
    right: ListResourcesResult,
    right_traces: Seq<String>,
    both: ListResourcesResult,
)
    requires
        lists_traces(left, left_traces),
        lists_traces(right, right_traces),
        lists_traces(both, left_traces + right_traces),
    ensures
        both.resources@.map_values(|resource: Resource| resource.uri@)
            == left.resources@.map_values(|resource: Resource| resource.uri@)
            + right.resources@.map_values(|resource: Resource| resource.uri@),
{
    law_every_trace_is_listed(left, left_traces);
    law_every_trace_is_listed(right, right_traces);
    law_every_trace_is_listed(both, left_traces + right_traces);
    let uri = |resource: Resource| resource.uri@;
    let of = |trace: String| "trace://"@ + trace@;
    assert((left_traces + right_traces).map_values(of) =~= left_traces.map_values(of)
        + right_traces.map_values(of));
}

/// A trace is read as all of its spans and nothing besides, in their order: each
/// with its own JSON under its own address, and said to be JSON.
pub proof fn law_every_span_is_read(result: ReadResourceResult, spans: Seq<SpanText>)
    requires
        holds_spans(result, spans),
    ensures
        result.contents@.len() == spans.len(),
        result.contents@.map_values(|contents: TextResourceContents| contents.text@)
            == spans.map_values(|span: SpanText| span.json@),
        result.contents@.map_values(|contents: TextResourceContents| contents.uri@)
            == spans.map_values(|span: SpanText| "span://"@ + span.span_id@),
        forall|i: int|
            0 <= i < spans.len() ==> ((#[trigger] result.contents@[i]).mime_type matches Some(kind)
                && kind@ == "application/json"@),
{
    assert forall|i: int| 0 <= i < spans.len() implies is_span(
        #[trigger] result.contents@[i],
        spans[i],
    ) by {}
}

/// What a URI asks for is told by what stands before and behind its first "://":
/// the spans of a trace where a trace is named, something of an unknown kind where
/// another kind is, and nothing where there is no "://" in it.
pub proof fn law_uri_says_what_it_asks_for(uri: Seq<char>)
    ensures
        match read_target(uri) {
            ReadTarget::Trace(trace_id) => uri == "trace"@ + "://"@ + trace_id,
            ReadTarget::UnknownKind(kind) => {
                &&& kind != "trace"@
                &&& exists|name: Seq<char>| uri == #[trigger] (kind + "://"@ + name)
                &&& forall|j: int|
                    0 <= j < kind.len() ==> (#[trigger] uri.subrange(j, j + "://"@.len()))
                        != "://"@
            },
            ReadTarget::Malformed => forall|j: int|
                0 <= j && j + "://"@.len() <= uri.len() ==> (#[trigger] uri.subrange(
                    j,
                    j + "://"@.len(),
                )) != "://"@,
        },
{
    law_split_is_at_the_first_separator(uri, "://"@);
}

/// Traces and spans are addressed by their kind and their id.
pub proof fn law_addresses_have_kind_and_id(id: Seq<char>)
    ensures
        trace_uri(id) == "trace://"@ + id,
        span_uri(id) == "span://"@ + id,
{
}

} // verus!
