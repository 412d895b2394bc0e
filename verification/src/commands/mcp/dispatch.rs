//! From the message of a client to the answer that it gets.
//!
//! A request is either answered at once, or it waits for a call of the API. The
//! call is made outside, and its outcome finishes the request.
use super::error::{answer, HandlerError};
use super::messages::{
    invalid_params, method_not_found, ClientJsonrpcRequest, ClientMessage, ClientMessageView,
    ClientRequestView, Implementation, InitializeResult, ListResourcesResult, ListToolsResult,
    MemberView, RequestFromClient, RequestId, RequestIdView, RequestView, ResultFromServer,
    ServerCapabilities, ServerCapabilitiesResources, ServerCapabilitiesTools, ServerMessage,
    INTERNAL_ERROR, INVALID_PARAMS, METHOD_NOT_FOUND,
};
use super::resources::{
    handle_resources_list, handle_resources_read, holds_spans, is_trace,
    law_uri_says_what_it_asks_for, lists_traces, read_target, resources_list_result,
    resources_read_result, trace_uri, ReadTarget, SpanText, LISTED_TRACES,
};
use super::session::McpSession;
use super::tools::{
    handle_tool_call, handle_tool_call_get_trace, handle_tools_list, is_text, lists_tools,
    wanted_trace, ToolCall,
};
use crate::api::ApiCall;
use crate::data::{is_hex_encoded, HexEncodedId};
use crate::text::{lemma_split_first_of_joined, occurs_at, str_eq};
use vstd::prelude::*;

verus! {

/// The version of the protocol that the server speaks.
pub open spec fn mcp_version() -> Seq<char> {
    "2024-11-05"@
}

/// What the server says of itself when a conversation opens: the version that it
/// speaks, who it is, and that it has resources, whose list may change, and tools.
pub open spec fn introduces(result: InitializeResult, server_info: Implementation) -> bool {
    &&& result.protocol_version@ == mcp_version()
    &&& result.server_info == server_info
    &&& result.instructions matches Some(text) && text@ == "Sample instructions"@
    &&& result.capabilities == ServerCapabilities {
        experimental: None,
        logging: None,
        prompts: None,
        resources: Some(ServerCapabilitiesResources { list_changed: Some(true), subscribe: None }),
        tools: Some(ServerCapabilitiesTools { list_changed: None }),
    }
}

/// Opens a conversation with a client that speaks the same version.
pub fn handle_initialize(protocol_version: String, server_info: Implementation) -> (result:
    Result<InitializeResult, HandlerError>)
    ensures
        if protocol_version@ == mcp_version() {
            result matches Ok(result) && introduces(result, server_info)
        } else {
            result matches Err(HandlerError::UnsupportedVersion)
        },
{
    if !str_eq(protocol_version.as_str(), "2024-11-05") {
        return Err(HandlerError::UnsupportedVersion);
    }
    let capabilities = ServerCapabilities {
        experimental: None,
        logging: None,
        prompts: None,
        resources: Some(ServerCapabilitiesResources { list_changed: Some(true), subscribe: None }),
        tools: Some(ServerCapabilitiesTools { list_changed: None }),
    };
    Ok(
        InitializeResult {
            capabilities,
            instructions: Some("Sample instructions".to_owned()),
            protocol_version: "2024-11-05".to_owned(),
            server_info,
        },
    )
}

/// The answer to a ping.
pub fn handle_ping() -> (result: ResultFromServer)
    ensures
        result is Empty,
{
    ResultFromServer::Empty
}

/// A request for the list of resources, waiting for the traces.
#[derive(Debug)]
pub struct PendingList {
    pub request_id: RequestId,
}

impl PendingList {
    /// The call that the request waits for.
    pub fn call(&self) -> (call: ApiCall)
        ensures
            call == (ApiCall::TraceList { limit: Some(LISTED_TRACES), time: None }),
    {
        handle_resources_list()
    }

    /// The answer, once the ids of the traces are there.
    pub fn finish(self, traces: Result<Vec<String>, String>) -> (message: ServerMessage)
        ensures
            message.answers(self.request_id@),
            match traces {
                Ok(traces) => {
                    &&& message matches ServerMessage::Response(response)
                    &&& response.result matches ResultFromServer::ListResources(result)
                    &&& lists_traces(result, traces@)
                },
                Err(text) => message.refuses(self.request_id@, INTERNAL_ERROR as int, text@),
            },
    {
        match resources_list_result(traces) {
            Ok(result) => answer(self.request_id, Ok(ResultFromServer::ListResources(result))),
            Err(error) => answer(self.request_id, Err(error)),
        }
    }
}

/// A request for a resource, waiting for the spans of a trace.
#[derive(Debug)]
pub struct PendingRead {
    pub request_id: RequestId,
    pub trace_id: String,
}

impl PendingRead {
    /// The call that the request waits for.
    pub fn call(&self) -> (call: ApiCall)
        ensures
            call matches ApiCall::SpanList { trace_id } && trace_id@ == self.trace_id@,
    {
        ApiCall::SpanList { trace_id: self.trace_id.clone() }
    }

    /// The answer, once the spans are there.
    pub fn finish(self, spans: Vec<SpanText>) -> (message: ServerMessage)
        ensures
            message.answers(self.request_id@),
            message matches ServerMessage::Response(response) && {
                &&& response.result matches ResultFromServer::ReadResource(result)
                &&& holds_spans(result, spans@)
                &&& result.contents@.len() == spans@.len()
                &&& forall|i: int|
                    0 <= i < spans@.len() ==> {
                        &&& (#[trigger] result.contents@[i]).text@ == spans@[i].json@
                        &&& result.contents@[i].uri@ == "span://"@ + spans@[i].span_id@
                    }
            },
    {
        let result = resources_read_result(spans);
        answer(self.request_id, Ok(ResultFromServer::ReadResource(result)))
    }
}

/// A call of the tool "get_trace", waiting for the trace.
#[derive(Debug)]
pub struct PendingTrace {
    pub request_id: RequestId,
    pub trace_id: HexEncodedId,
}

impl PendingTrace {
    /// The call that the request waits for.
    pub fn call(&self) -> (call: ApiCall)
        ensures
            call matches ApiCall::TraceGet { trace_id } && trace_id@ == self.trace_id@,
    {
        ApiCall::TraceGet { trace_id: self.trace_id.as_str().to_owned() }
    }

    /// The answer, once the trace is there as JSON.
    pub fn finish(self, trace: Result<String, String>) -> (message: ServerMessage)
        ensures
            message.answers(self.request_id@),
            match trace {
                Ok(json) => {
                    &&& message matches ServerMessage::Response(response)
                    &&& response.result matches ResultFromServer::CallTool(result)
                    &&& is_text(result, json@)
                },
                Err(text) => message.refuses(self.request_id@, INTERNAL_ERROR as int, text@),
            },
    {
        match handle_tool_call_get_trace(trace) {
            Ok(result) => answer(self.request_id, Ok(ResultFromServer::CallTool(result))),
            Err(error) => answer(self.request_id, Err(error)),
        }
    }
}

/// How far a request gets without the API.
#[derive(Debug)]
pub enum Step {
    /// It is answered.
    Reply(ServerMessage),
    ListTraces(PendingList),
    ReadSpans(PendingRead),
    GetTrace(PendingTrace),
}

impl Step {
    /// The request `id` is answered, or waits to be.
    pub open spec fn concerns(self, id: RequestIdView) -> bool {
        match self {
            Step::Reply(message) => message.answers(id),
            Step::ListTraces(pending) => pending.request_id@ == id,
            Step::ReadSpans(pending) => pending.request_id@ == id,
            Step::GetTrace(pending) => pending.request_id@ == id,
        }
    }

    /// The request `id` is answered with this error.
    pub open spec fn refuses(self, id: RequestIdView, code: int, message: Seq<char>) -> bool {
        self matches Step::Reply(reply) && reply.refuses(id, code, message)
    }
}

/// The step that opening a conversation comes to.
pub open spec fn initialize_step(
    step: Step,
    id: RequestIdView,
    protocol_version: Seq<char>,
    server_info: Implementation,
) -> bool {
    if protocol_version == mcp_version() {
        &&& step matches Step::Reply(ServerMessage::Response(response))
        &&& response.id@ == id
        &&& response.result matches ResultFromServer::Initialize(result)
        &&& introduces(result, server_info)
    } else {
        step.refuses(id, INTERNAL_ERROR as int, "unsupported version"@)
    }
}

/// The step that a request for a resource comes to.
pub open spec fn read_step(step: Step, id: RequestIdView, uri: Seq<char>) -> bool {
    match read_target(uri) {
        ReadTarget::Trace(trace_id) => {
            &&& step matches Step::ReadSpans(pending)
            &&& pending.request_id@ == id
            &&& pending.trace_id@ == trace_id
        },
        ReadTarget::Malformed => step.refuses(id, INTERNAL_ERROR as int, "invalid uri"@),
        ReadTarget::UnknownKind(kind) => step.refuses(
            id,
            INTERNAL_ERROR as int,
            "unknown resource type: "@ + kind,
        ),
    }
}

/// The step that a call of a tool comes to.
pub open spec fn tool_step(
    step: Step,
    id: RequestIdView,
    name: Seq<char>,
    arguments: Map<Seq<char>, MemberView>,
) -> bool {
    if name != "get_trace"@ {
        step.refuses(id, METHOD_NOT_FOUND as int, "Method not found"@)
    } else {
        match wanted_trace(arguments) {
            Some(trace_id) => {
                &&& step matches Step::GetTrace(pending)
                &&& pending.request_id@ == id
                &&& pending.trace_id@ == trace_id
            },
            None => step.refuses(id, INVALID_PARAMS as int, "Invalid params"@),
        }
    }
}

/// The step that a request comes to that the server does not serve.
pub open spec fn unsupported(step: Step, id: RequestIdView) -> bool {
    step.refuses(id, INTERNAL_ERROR as int, "received unsupported json-rpc message"@)
}

/// The step that a request comes to.
pub open spec fn request_step(
    step: Step,
    request: ClientRequestView,
    server_info: Implementation,
) -> bool {
    match request.request {
        RequestView::Initialize(version) => initialize_step(step, request.id, version, server_info),
        RequestView::ListResources => {
            step matches Step::ListTraces(pending) && pending.request_id@ == request.id
        },
        RequestView::ReadResource(uri) => read_step(step, request.id, uri),
        RequestView::Ping => {
            &&& step matches Step::Reply(ServerMessage::Response(response))
            &&& response.id@ == request.id
            &&& response.result is Empty
        },
        RequestView::ListTools => {
            &&& step matches Step::Reply(ServerMessage::Response(response))
            &&& response.id@ == request.id
            &&& response.result matches ResultFromServer::ListTools(result)
            &&& lists_tools(result)
        },
        RequestView::CallTool(name, arguments) => tool_step(step, request.id, name, arguments),
        RequestView::ListResourceTemplates => unsupported(step, request.id),
        RequestView::Subscribe => unsupported(step, request.id),
        RequestView::Unsubscribe => unsupported(step, request.id),
        RequestView::ListPrompts => unsupported(step, request.id),
        RequestView::GetPrompt => unsupported(step, request.id),
        RequestView::SetLevel => unsupported(step, request.id),
        RequestView::Complete => unsupported(step, request.id),
        RequestView::Custom => unsupported(step, request.id),
    }
}

/// Handles a request as far as it goes without the API.
pub fn handle_client_request(request: ClientJsonrpcRequest, server_info: Implementation) -> (step:
    Step)
    ensures
        request_step(step, request@, server_info),
{
    let id = request.id;
    match request.request {
        RequestFromClient::Initialize(version) => match handle_initialize(version, server_info) {
            Ok(result) => Step::Reply(answer(id, Ok(ResultFromServer::Initialize(result)))),
            Err(error) => Step::Reply(answer(id, Err(error))),
        },
        RequestFromClient::ListResources => Step::ListTraces(PendingList { request_id: id }),
        RequestFromClient::ReadResource(uri) => match handle_resources_read(uri) {
            Ok(trace_id) => Step::ReadSpans(PendingRead { request_id: id, trace_id }),
            Err(error) => Step::Reply(answer(id, Err(error))),
        },
        RequestFromClient::Ping => Step::Reply(answer(id, Ok(handle_ping()))),
        RequestFromClient::ListTools => {
            Step::Reply(answer(id, Ok(ResultFromServer::ListTools(handle_tools_list()))))
        },
        RequestFromClient::CallTool(name, arguments) => match handle_tool_call(name, arguments) {
            ToolCall::GetTrace(params) => Step::GetTrace(
                PendingTrace { request_id: id, trace_id: params.trace_id },
            ),
            ToolCall::InvalidParams => Step::Reply(McpSession::send_error(id, invalid_params())),
            ToolCall::MethodNotFound => Step::Reply(McpSession::send_error(id, method_not_found())),
        },
        RequestFromClient::ListResourceTemplates | RequestFromClient::Subscribe
        | RequestFromClient::Unsubscribe | RequestFromClient::ListPrompts
        | RequestFromClient::GetPrompt | RequestFromClient::SetLevel
        | RequestFromClient::Complete | RequestFromClient::Custom => {
            Step::Reply(answer(id, Err(HandlerError::UnsupportedMessage)))
        },
    }
}

/// The step that a message comes to. Only a request is owed an answer.
pub open spec fn message_step(
    step: Option<Step>,
    message: ClientMessageView,
    server_info: Implementation,
) -> bool {
    match message {
        ClientMessageView::Request(request) => {
            step matches Some(step) && request_step(step, request, server_info)
        },
        ClientMessageView::Notification => step is None,
        ClientMessageView::Response(_) => step is None,
        ClientMessageView::Error(_) => step is None,
    }
}

/// Handles a message of a client as far as it goes without the API.
pub fn handle_client_message(message: ClientMessage, server_info: Implementation) -> (step: Option<
    Step,
>)
    ensures
        message_step(step, message@, server_info),
{
    match message {
        ClientMessage::Request(request) => Some(handle_client_request(request, server_info)),
        ClientMessage::Notification => None,
        ClientMessage::Response(_) => None,
        ClientMessage::Error(_) => None,
    }
}

/// Every request is answered, under its own id and no other: at once, or once
/// what it waits for is there.
pub proof fn law_every_request_is_answered(
    step: Step,
    request: ClientRequestView,
    server_info: Implementation,
)
    requires
        request_step(step, request, server_info),
    ensures
        step.concerns(request.id),
{
}

/// A resource that is listed for a trace is one that can be read: asking for it
/// asks for the spans of that trace, whatever its id.
pub proof fn law_listed_resource_is_readable(trace_id: Seq<char>)
    ensures
        read_target(trace_uri(trace_id)) == ReadTarget::Trace(trace_id),
{
    reveal_strlit("trace://");
    reveal_strlit("trace");
    reveal_strlit("://");
    let uri = trace_uri(trace_id);
    assert(uri =~= "trace"@ + "://"@ + trace_id);
    assert forall|j: int| 0 <= j < "trace"@.len() implies !occurs_at(
        "trace"@ + "://"@ + trace_id,
        "://"@,
        j,
    ) by {
        if occurs_at(uri, "://"@, j) {
            assert(uri.subrange(j, j + 3)[0] == uri[j]);
            assert(uri[j] == "trace"@[j]);
        }
    }
    lemma_split_first_of_joined("trace"@, "://"@, trace_id);
}

/// The same through the server: of the resources in an answer that lists traces,
/// each is one that a request to read it waits for the spans of that trace.
pub proof fn law_listed_resource_is_read(
    listed: ListResourcesResult,
    traces: Seq<String>,
    i: int,
    id: RequestIdView,
    step: Step,
)
    requires
        lists_traces(listed, traces),
        0 <= i < traces.len(),
        read_step(step, id, listed.resources@[i].uri@),
    ensures
        step matches Step::ReadSpans(pending) && pending.request_id@ == id && pending.trace_id@
            == traces[i]@,
{
    assert(is_trace(listed.resources@[i], traces[i]@));
    law_listed_resource_is_readable(traces[i]@);
}

/// A tool that is listed is one that can be called: with a hex encoded id for
/// each parameter that it requires, the call waits for the trace of that id.
pub proof fn law_listed_tool_is_callable(
    listed: ListToolsResult,
    i: int,
    arguments: Map<Seq<char>, MemberView>,
    trace_id: Seq<char>,
    id: RequestIdView,
    step: Step,
)
    requires
        lists_tools(listed),
        0 <= i < listed.tools@.len(),
        is_hex_encoded(trace_id),
        forall|j: int|
            0 <= j < listed.tools@[i].input_schema.required@.len() ==> arguments.contains_pair(
                #[trigger] listed.tools@[i].input_schema.required@[j]@,
                MemberView::String(trace_id),
            ),
        tool_step(step, id, listed.tools@[i].name@, arguments),
    ensures
        step matches Step::GetTrace(pending) && pending.request_id@ == id && pending.trace_id@
            == trace_id,
{
    let required = listed.tools@[i].input_schema.required@;
    assert(arguments.contains_pair(required[0]@, MemberView::String(trace_id)));
}

/// A call of a listed tool without a parameter that it requires is refused.
pub proof fn law_required_parameter_is_required(
    listed: ListToolsResult,
    i: int,
    j: int,
    arguments: Map<Seq<char>, MemberView>,
    id: RequestIdView,
    step: Step,
)
    requires
        lists_tools(listed),
        0 <= i < listed.tools@.len(),
        0 <= j < listed.tools@[i].input_schema.required@.len(),
        !arguments.dom().contains(listed.tools@[i].input_schema.required@[j]@),
        tool_step(step, id, listed.tools@[i].name@, arguments),
    ensures
        step.refuses(id, INVALID_PARAMS as int, "Invalid params"@),
{
}

/// A message is handled as what it is: a request comes to the step of that request,
/// and nothing else is answered.
pub proof fn law_messages_are_handled_as_what_they_are(
    step: Option<Step>,
    message: ClientMessageView,
    server_info: Implementation,
)
    requires
        message_step(step, message, server_info),
    ensures
        message matches ClientMessageView::Request(request) ==> (step matches Some(step)
            && request_step(step, request, server_info)),
        message !is Request ==> step is None,
{
}

/// What is said of a step is what it holds: the request that it concerns is the one
/// that it answers or waits with, and a refusal is an error message for it.
pub proof fn law_steps_hold_the_request_they_concern(
    step: Step,
    id: RequestIdView,
    code: int,
    words: Seq<char>,
)
    ensures
        step matches Step::Reply(ServerMessage::Response(response)) ==> (step.concerns(id)
            <==> response.id@ == id),
        step matches Step::Reply(ServerMessage::Error(error)) ==> (step.concerns(id)
            <==> error.id@ == id),
        step matches Step::Reply(ServerMessage::Request(_)) ==> !step.concerns(id),
        step matches Step::Reply(ServerMessage::Notification(_)) ==> !step.concerns(id),
        step matches Step::ListTraces(pending) ==> (step.concerns(id) <==> pending.request_id@
            == id),
        step matches Step::ReadSpans(pending) ==> (step.concerns(id) <==> pending.request_id@
            == id),
        step matches Step::GetTrace(pending) ==> (step.concerns(id) <==> pending.request_id@ == id),
        step.refuses(id, code, words) <==> (step matches Step::Reply(ServerMessage::Error(error))
            && {
            &&& error.id@ == id
            &&& error.error.code == code
            &&& error.error.message@ == words
            &&& error.error.data is None
        }),
{
}

/// The server says of itself what version it speaks, who it is, and what it offers:
/// resources, whose list may change, and tools, and nothing else.
pub proof fn law_introduction_says_what_is_offered(
    result: InitializeResult,
    server_info: Implementation,
)
    requires
        introduces(result, server_info),
    ensures
        result.protocol_version@ == "2024-11-05"@,
        result.server_info == server_info,
        result.instructions matches Some(text) && text@ == "Sample instructions"@,
        result.capabilities.resources matches Some(resources) && resources.list_changed == Some(
            true,
        ) && resources.subscribe is None,
        result.capabilities.tools matches Some(tools) && tools.list_changed is None,
        result.capabilities.experimental is None,
        result.capabilities.logging is None,
        result.capabilities.prompts is None,
{
}

/// A conversation opens in the one version that the server speaks: it says so, who
/// it is, and what it offers. In any other version it is refused.
pub proof fn law_conversations_open_in_one_version(
    step: Step,
    id: RequestIdView,
    version: Seq<char>,
    server_info: Implementation,
)
    requires
        request_step(
            step,
            ClientRequestView { id, request: RequestView::Initialize(version) },
            server_info,
        ),
    ensures
        version == "2024-11-05"@ ==> (step matches Step::Reply(ServerMessage::Response(response))
            && {
            &&& response.id@ == id
            &&& response.result matches ResultFromServer::Initialize(result)
            &&& result.protocol_version@ == version
            &&& result.server_info == server_info
            &&& result.instructions matches Some(text) && text@ == "Sample instructions"@
            &&& result.capabilities.resources matches Some(resources) && resources.list_changed
                == Some(true) && resources.subscribe is None
            &&& result.capabilities.tools matches Some(tools) && tools.list_changed is None
            &&& result.capabilities.experimental is None
            &&& result.capabilities.logging is None
            &&& result.capabilities.prompts is None
        }),
        version != "2024-11-05"@ ==> step.refuses(id, -32603, "unsupported version"@),
{
}

/// A request for the list of resources waits for the traces.
pub proof fn law_list_waits_for_the_traces(
    step: Step,
    id: RequestIdView,
    server_info: Implementation,
)
    requires
        request_step(
            step,
            ClientRequestView { id, request: RequestView::ListResources },
            server_info,
        ),
    ensures
        step matches Step::ListTraces(pending) && pending.request_id@ == id,
{
}

/// A request to read waits for the spans of the trace whose address it gives, and of
/// no other: what it waits for and the kind in front make the address again. With
/// another kind it is refused and told so, and without a kind too.
pub proof fn law_read_waits_for_the_spans_of_its_trace(
    step: Step,
    id: RequestIdView,
    uri: Seq<char>,
    server_info: Implementation,
)
    requires
        request_step(
            step,
            ClientRequestView { id, request: RequestView::ReadResource(uri) },
            server_info,
        ),
    ensures
        match step {
            Step::ReadSpans(pending) => {
                &&& pending.request_id@ == id
                &&& uri == "trace"@ + "://"@ + pending.trace_id@
            },
            Step::Reply(_) => {
                ||| {
                    &&& step.refuses(id, -32603, "invalid uri"@)
                    &&& forall|j: int|
                        0 <= j && j + "://"@.len() <= uri.len() ==> (#[trigger] uri.subrange(
                            j,
                            j + "://"@.len(),
                        )) != "://"@
                }
                ||| exists|kind: Seq<char>, name: Seq<char>|
                    {
                        &&& uri == #[trigger] (kind + "://"@ + name)
                        &&& kind != "trace"@
                        &&& forall|j: int|
                            0 <= j < kind.len() ==> (#[trigger] uri.subrange(
                                j,
                                j + "://"@.len(),
                            )) != "://"@
                        &&& step.refuses(id, -32603, "unknown resource type: "@ + kind)
                    }
            },
            _ => false,
        },
        forall|trace_id: Seq<char>|
            uri == #[trigger] ("trace://"@ + trace_id) ==> (step matches Step::ReadSpans(pending)
                && pending.trace_id@ == trace_id),
{
    law_uri_says_what_it_asks_for(uri);
    assert forall|trace_id: Seq<char>| uri == #[trigger] ("trace://"@ + trace_id) implies (
    step matches Step::ReadSpans(pending) && pending.trace_id@ == trace_id) by {
        law_listed_resource_is_readable(trace_id);
    }
}

/// A ping is answered with nothing.
pub proof fn law_ping_is_answered_with_nothing(
    step: Step,
    id: RequestIdView,
    server_info: Implementation,
)
    requires
        request_step(step, ClientRequestView { id, request: RequestView::Ping }, server_info),
    ensures
        step matches Step::Reply(ServerMessage::Response(response)) && response.id@ == id
            && response.result is Empty,
{
}

/// A request for the list of tools is answered with the one that there is.
pub proof fn law_tools_are_listed(step: Step, id: RequestIdView, server_info: Implementation)
    requires
        request_step(step, ClientRequestView { id, request: RequestView::ListTools }, server_info),
    ensures
        step matches Step::Reply(ServerMessage::Response(response)) && {
            &&& response.id@ == id
            &&& response.result matches ResultFromServer::ListTools(result)
            &&& result.next_cursor is None
            &&& result.tools@.len() == 1
            &&& result.tools@[0].name@ == "get_trace"@
            &&& result.tools@[0].input_schema.required@.len() == 1
            &&& result.tools@[0].input_schema.required@[0]@ == "trace_id"@
            &&& lists_tools(result)
        },
{
}

/// A call of a tool waits for the trace that it names, where the tool is "get_trace"
/// and the name is hex encoded. Otherwise it is refused, for the arguments or for
/// the name of the tool.
pub proof fn law_tool_calls_wait_for_the_trace_they_name(
    step: Step,
    id: RequestIdView,
    name: Seq<char>,
    arguments: Map<Seq<char>, MemberView>,
    server_info: Implementation,
)
    requires
        request_step(
            step,
            ClientRequestView { id, request: RequestView::CallTool(name, arguments) },
            server_info,
        ),
    ensures
        name != "get_trace"@ ==> step.refuses(id, -32601, "Method not found"@),
        step matches Step::GetTrace(pending) ==> {
            &&& name == "get_trace"@
            &&& pending.request_id@ == id
            &&& arguments.contains_pair("trace_id"@, MemberView::String(pending.trace_id@))
            &&& is_hex_encoded(pending.trace_id@)
        },
        name == "get_trace"@ && step !is GetTrace ==> {
            &&& step.refuses(id, -32602, "Invalid params"@)
            &&& forall|trace_id: Seq<char>|
                is_hex_encoded(trace_id) ==> !#[trigger] arguments.contains_pair(
                    "trace_id"@,
                    MemberView::String(trace_id),
                )
        },
{
}

/// A request that the server does not serve is refused, whichever it is.
pub proof fn law_other_requests_are_refused(
    step: Step,
    id: RequestIdView,
    request: RequestView,
    server_info: Implementation,
)
    requires
        request_step(step, ClientRequestView { id, request }, server_info),
        request !is Initialize,
        request !is Ping,
        request !is ListResources,
        request !is ReadResource,
        request !is ListTools,
        request !is CallTool,
    ensures
        step.refuses(id, -32603, "received unsupported json-rpc message"@),
{
}

} // verus!
