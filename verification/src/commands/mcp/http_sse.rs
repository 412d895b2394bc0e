//! The transport over server sent events without sessions: every client reads
//! every message.
use super::dispatch::{
    handle_initialize, introduces, law_listed_resource_is_readable, mcp_version,
};
use super::error::HandlerError;
use super::messages::{
    internal_error, Implementation, RequestId, ResultFromServer, ServerJsonrpcResponse,
    ServerMessage, INTERNAL_ERROR,
};
use super::resources::{
    handle_resources_list, handle_resources_read, law_uri_says_what_it_asks_for, read_target,
    ReadTarget, LISTED_TRACES,
};
use super::session::McpSession;
use super::sse::SseEvent;
use crate::api::ApiCall;
use crate::text::str_eq;
use rust_mcp_schema::{
    InitializeRequestParams, ListResourcesRequestParams, ReadResourceRequestParams,
};
use vstd::prelude::*;

verus! {

/// After how many seconds without a message a stream is kept alive.
pub const KEEP_ALIVE_SECONDS: u64 = 5;

/// The methods that there are.
#[derive(Debug, Clone, Copy, PartialEq, Eq, Structural)]
pub enum Method {
    Initialize,
    ResourcesList,
    ResourcesRead,
    Unknown,
}

/// The method of this name.
pub open spec fn method_named(name: Seq<char>) -> Method {
    if name == "initialize"@ {
        Method::Initialize
    } else if name == "resources/list"@ {
        Method::ResourcesList
    } else if name == "resources/read"@ {
        Method::ResourcesRead
    } else {
        Method::Unknown
    }
}

/// The method of this name.
pub fn method_of(name: &str) -> (method: Method)
    ensures
        method == method_named(name@),
{
    if str_eq(name, "initialize") {
        Method::Initialize
    } else if str_eq(name, "resources/list") {
        Method::ResourcesList
    } else if str_eq(name, "resources/read") {
        Method::ResourcesRead
    } else {
        Method::Unknown
    }
}

/// The version of the protocol that a client wants to speak, as the parameters of
/// "initialize" have it, and `None` for a text that is no such parameters.
pub uninterp spec fn wanted_version(params: Seq<char>) -> Option<Seq<char>>;

/// The URI that a client wants to read, as the parameters of "resources/read"
/// have it, and `None` for a text that is no such parameters.
pub uninterp spec fn wanted_uri(params: Seq<char>) -> Option<Seq<char>>;

/// Whether a text is parameters of "resources/list", none at all among them.
pub uninterp spec fn is_list_params(params: Seq<char>) -> bool;

/// `serde_json::from_str` into the `InitializeRequestParams` of `rust_mcp_schema`,
/// and of that the `protocol_version`, as [`wanted_version`] names it.
#[verifier::external_body]
fn decode_initialize(params: &str) -> (version: Result<String, serde_json::Error>)
    ensures
        match version {
            Ok(version) => wanted_version(params@) == Some(version@),
            Err(_) => wanted_version(params@) is None,
        },
{
    let params: InitializeRequestParams = serde_json::from_str(params)?;
    Ok(params.protocol_version)
}

/// `serde_json::from_str` into the `ReadResourceRequestParams` of
/// `rust_mcp_schema`, and of that the `uri`, as [`wanted_uri`] names it.
#[verifier::external_body]
fn decode_read(params: &str) -> (uri: Result<String, serde_json::Error>)
    ensures
        match uri {
            Ok(uri) => wanted_uri(params@) == Some(uri@),
            Err(_) => wanted_uri(params@) is None,
        },
{
    let params: ReadResourceRequestParams = serde_json::from_str(params)?;
    Ok(params.uri)
}

/// `serde_json::from_str` into an optional `ListResourcesRequestParams` of
/// `rust_mcp_schema`: whether it succeeds, as [`is_list_params`] names it. What the
/// parameters hold is not looked at.
#[verifier::external_body]
fn decode_list(params: &str) -> (decoded: Result<(), serde_json::Error>)
    ensures
        decoded is Ok <==> is_list_params(params@),
{
    let _params: Option<ListResourcesRequestParams> = serde_json::from_str(params)?;
    Ok(())
}

/// A call of a method: with the version of the protocol that a client wants to
/// speak, and with the URI that it wants to read.
#[derive(Debug)]
pub enum MethodCall {
    Initialize(String),
    ResourcesList,
    ResourcesRead(String),
    Unknown,
}

/// A method was called with parameters that it does not take.
#[derive(Debug, Clone, Copy, PartialEq, Eq, Structural)]
pub struct InvalidCall;

/// The call is the one of the method of this name with these parameters.
pub open spec fn is_call(
    call: Result<MethodCall, InvalidCall>,
    name: Seq<char>,
    params: Seq<char>,
) -> bool {
    match method_named(name) {
        Method::Initialize => match wanted_version(params) {
            Some(version) => call matches Ok(MethodCall::Initialize(it)) && it@ == version,
            None => call is Err,
        },
        Method::ResourcesList => if is_list_params(params) {
            call matches Ok(MethodCall::ResourcesList)
        } else {
            call is Err
        },
        Method::ResourcesRead => match wanted_uri(params) {
            Some(uri) => call matches Ok(MethodCall::ResourcesRead(it)) && it@ == uri,
            None => call is Err,
        },
        Method::Unknown => call matches Ok(MethodCall::Unknown),
    }
}

/// The call of the method of this name with these parameters, which are JSON. Of
/// a method that there is not the parameters do not matter.
pub fn method_call(name: &str, params: &str) -> (call: Result<MethodCall, InvalidCall>)
    ensures
        is_call(call, name@, params@),
{
    match method_of(name) {
        Method::Initialize => match decode_initialize(params) {
            Ok(version) => Ok(MethodCall::Initialize(version)),
            Err(_) => Err(InvalidCall),
        },
        Method::ResourcesList => match decode_list(params) {
            Ok(_) => Ok(MethodCall::ResourcesList),
            Err(_) => Err(InvalidCall),
        },
        Method::ResourcesRead => match decode_read(params) {
            Ok(uri) => Ok(MethodCall::ResourcesRead(uri)),
            Err(_) => Err(InvalidCall),
        },
        Method::Unknown => Ok(MethodCall::Unknown),
    }
}

/// How far a call gets without the API.
#[derive(Debug)]
pub enum CallStep {
    /// It is done, with a result or with an error.
    Done(Result<ResultFromServer, HandlerError>),
    /// It waits for this call of the API.
    Call(ApiCall),
}

/// How far opening a conversation in this version gets.
pub open spec fn initialize_call(
    step: CallStep,
    version: Seq<char>,
    server_info: Implementation,
) -> bool {
    if version == mcp_version() {
        step matches CallStep::Done(Ok(ResultFromServer::Initialize(result))) && introduces(
            result,
            server_info,
        )
    } else {
        step matches CallStep::Done(Err(HandlerError::UnsupportedVersion))
    }
}

/// How far a request for the list of resources gets.
pub open spec fn list_call(step: CallStep) -> bool {
    step == CallStep::Call((ApiCall::TraceList { limit: Some(LISTED_TRACES), time: None }))
}

/// How far a request for the resource at this URI gets.
pub open spec fn read_call(step: CallStep, uri: Seq<char>) -> bool {
    match read_target(uri) {
        ReadTarget::Trace(id) => {
            step matches CallStep::Call(ApiCall::SpanList { trace_id }) && trace_id@ == id
        },
        ReadTarget::Malformed => step matches CallStep::Done(Err(HandlerError::InvalidUri)),
        ReadTarget::UnknownKind(kind) => {
            step matches CallStep::Done(Err(HandlerError::UnknownResourceType(text))) && text@
                == kind
        },
    }
}

/// How far a call gets without the API.
pub open spec fn call_step(step: CallStep, call: MethodCall, server_info: Implementation) -> bool {
    match call {
        MethodCall::Initialize(version) => initialize_call(step, version@, server_info),
        MethodCall::ResourcesList => list_call(step),
        MethodCall::ResourcesRead(uri) => read_call(step, uri@),
        MethodCall::Unknown => step matches CallStep::Done(Err(HandlerError::UnknownMethod)),
    }
}

/// Handles a call as far as it goes without the API.
pub fn handle_call(call: MethodCall, server_info: Implementation) -> (step: CallStep)
    ensures
        call_step(step, call, server_info),
{
    match call {
        MethodCall::Initialize(version) => match handle_initialize(version, server_info) {
            Ok(result) => CallStep::Done(Ok(ResultFromServer::Initialize(result))),
            Err(error) => CallStep::Done(Err(error)),
        },
        MethodCall::ResourcesList => CallStep::Call(handle_resources_list()),
        MethodCall::ResourcesRead(uri) => match handle_resources_read(uri) {
            Ok(trace_id) => CallStep::Call(ApiCall::SpanList { trace_id }),
            Err(error) => CallStep::Done(Err(error)),
        },
        MethodCall::Unknown => CallStep::Done(Err(HandlerError::UnknownMethod)),
    }
}

/// Handles a call of the method of this name with these parameters, which are
/// JSON, as far as it goes without the API.
pub fn json_rpc_handler(name: &str, params: &str, server_info: Implementation) -> (step: Result<
    CallStep,
    InvalidCall,
>)
    ensures
        match method_named(name@) {
            Method::Initialize => match wanted_version(params@) {
                Some(version) => {
                    step matches Ok(step) && initialize_call(step, version, server_info)
                },
                None => step is Err,
            },
            Method::ResourcesList => if is_list_params(params@) {
                step matches Ok(step) && list_call(step)
            } else {
                step is Err
            },
            Method::ResourcesRead => match wanted_uri(params@) {
                Some(uri) => step matches Ok(step) && read_call(step, uri),
                None => step is Err,
            },
            Method::Unknown => {
                step matches Ok(CallStep::Done(Err(HandlerError::UnknownMethod)))
            },
        },
{
    match method_call(name, params) {
        Ok(call) => Ok(handle_call(call, server_info)),
        Err(error) => Err(error),
    }
}

/// What a call says its answer is to be found by.
#[derive(Debug)]
pub enum AnswerId {
    Num(i64),
    Str(String),
    /// Nothing.
    Missing,
}

/// The id of the answer, where the call gives one.
pub fn answer_id(id: AnswerId) -> (request_id: Option<RequestId>)
    ensures
        match id {
            AnswerId::Num(number) => request_id == Some(RequestId::Integer(number)),
            AnswerId::Str(text) => request_id == Some(RequestId::String(text)),
            AnswerId::Missing => request_id is None,
        },
{
    match id {
        AnswerId::Num(number) => Some(RequestId::Integer(number)),
        AnswerId::Str(text) => Some(RequestId::String(text)),
        AnswerId::Missing => None,
    }
}

/// The message that answers a call: its result, or that there was an error. What
/// the error was is kept from the clients.
pub fn respond(request_id: RequestId, result: Result<ResultFromServer, HandlerError>) -> (message:
    ServerMessage)
    ensures
        message.answers(request_id@),
        match result {
            Ok(result) => message == ServerMessage::Response(
                (ServerJsonrpcResponse { id: request_id, result }),
            ),
            Err(_) => message.refuses(request_id@, INTERNAL_ERROR as int, "error_message"@),
        },
{
    match result {
        Ok(result) => McpSession::send_response(request_id, result),
        Err(_) => McpSession::send_error(request_id, internal_error("error_message".to_owned())),
    }
}

/// The event that comes first on a stream: where clients post their messages.
pub fn first_event() -> (event: SseEvent)
    ensures
        event.says("endpoint"@, "/messages"@),
{
    SseEvent { event: "endpoint".to_owned(), data: "/messages".to_owned() }
}

/// A method is told by its name, letter for letter, and every other name is one of
/// a method that there is not.
pub proof fn law_methods_are_told_by_name(name: Seq<char>)
    ensures
        method_named(name) == Method::Initialize <==> name == "initialize"@,
        method_named(name) == Method::ResourcesList <==> name == "resources/list"@,
        method_named(name) == Method::ResourcesRead <==> name == "resources/read"@,
        method_named(name) == Method::Unknown <==> (name != "initialize"@ && name
            != "resources/list"@ && name != "resources/read"@),
{
    reveal_strlit("initialize");
    reveal_strlit("resources/list");
    reveal_strlit("resources/read");
    assert("initialize"@.len() != "resources/list"@.len());
    assert("resources/list"@[10] != "resources/read"@[10]);
}

/// A call has what its parameters say: the version that is wanted, or the URI that
/// is. It is invalid only where a method that there is does not take the parameters.
pub proof fn law_calls_have_what_their_parameters_say(
    call: Result<MethodCall, InvalidCall>,
    name: Seq<char>,
    params: Seq<char>,
)
    requires
        is_call(call, name, params),
    ensures
        match call {
            Ok(MethodCall::Initialize(version)) => name == "initialize"@ && wanted_version(params)
                == Some(version@),
            Ok(MethodCall::ResourcesList) => name == "resources/list"@ && is_list_params(params),
            Ok(MethodCall::ResourcesRead(uri)) => name == "resources/read"@ && wanted_uri(params)
                == Some(uri@),
            Ok(MethodCall::Unknown) => name != "initialize"@ && name != "resources/list"@ && name
                != "resources/read"@,
            Err(_) => {
                ||| name == "initialize"@ && wanted_version(params) is None
                ||| name == "resources/list"@ && !is_list_params(params)
                ||| name == "resources/read"@ && wanted_uri(params) is None
            },
        },
{
    law_methods_are_told_by_name(name);
}

/// A conversation opens in the one version that the server speaks, and in no other.
pub proof fn law_calls_open_conversations_in_one_version(
    step: CallStep,
    version: Seq<char>,
    server_info: Implementation,
)
    requires
        initialize_call(step, version, server_info),
    ensures
        version == "2024-11-05"@ ==> (step matches CallStep::Done(
            Ok(ResultFromServer::Initialize(result)),
        ) && introduces(result, server_info) && result.protocol_version@ == version
            && result.server_info == server_info),
        version != "2024-11-05"@ ==> step matches CallStep::Done(
            Err(HandlerError::UnsupportedVersion),
        ),
{
}

/// A request for the list of resources waits for the traces, up to fifty of them
/// and of any time.
pub proof fn law_list_calls_wait_for_the_traces(step: CallStep)
    requires
        list_call(step),
    ensures
        step matches CallStep::Call(ApiCall::TraceList { limit, time }) && limit == Some(50u32)
            && time is None,
{
}

/// A request to read waits for the spans of the trace whose address it gives, and of
/// no other. With another kind it fails and names the kind, and without a kind too.
pub proof fn law_read_calls_wait_for_the_spans_of_their_trace(step: CallStep, uri: Seq<char>)
    requires
        read_call(step, uri),
    ensures
        match step {
            CallStep::Call(ApiCall::SpanList { trace_id }) => uri == "trace"@ + "://"@ + trace_id@,
            CallStep::Done(Err(HandlerError::UnknownResourceType(kind))) => {
                &&& kind@ != "trace"@
                &&& exists|name: Seq<char>| uri == #[trigger] (kind@ + "://"@ + name)
                &&& forall|j: int|
                    0 <= j < kind@.len() ==> (#[trigger] uri.subrange(j, j + "://"@.len()))
                        != "://"@
            },
            CallStep::Done(Err(HandlerError::InvalidUri)) => forall|j: int|
                0 <= j && j + "://"@.len() <= uri.len() ==> (#[trigger] uri.subrange(
                    j,
                    j + "://"@.len(),
                )) != "://"@,
            _ => false,
        },
        forall|trace_id: Seq<char>|
            uri == #[trigger] ("trace://"@ + trace_id) ==> (step matches CallStep::Call(
                ApiCall::SpanList { trace_id: asked },
            ) && asked@ == trace_id),
{
    law_uri_says_what_it_asks_for(uri);
    assert forall|trace_id: Seq<char>| uri == #[trigger] ("trace://"@ + trace_id) implies (
    step matches CallStep::Call(ApiCall::SpanList { trace_id: asked }) && asked@ == trace_id) by {
        law_listed_resource_is_readable(trace_id);
    }
}

/// A call gets as far as that of its method does, and one of a method that there is
/// not gets nowhere.
pub proof fn law_calls_are_handled_as_what_they_are(
    step: CallStep,
    call: MethodCall,
    server_info: Implementation,
)
    requires
        call_step(step, call, server_info),
    ensures
        call matches MethodCall::Initialize(version) ==> initialize_call(
            step,
            version@,
            server_info,
        ),
        call is ResourcesList ==> list_call(step),
        call matches MethodCall::ResourcesRead(uri) ==> read_call(step, uri@),
        call is Unknown ==> step matches CallStep::Done(Err(HandlerError::UnknownMethod)),
{
}

} // verus!
