use otel_worker::api::ApiCall;
use otel_worker::commands::mcp::dispatch::{handle_client_message, handle_ping, Step};
use otel_worker::commands::mcp::error::{answer, HandlerError};
use otel_worker::commands::mcp::messages::{
    ClientJsonrpcRequest, ClientMessage, Implementation, JsonrpcErrorError, RequestFromClient,
    RequestId, ResultFromServer, ServerMessage,
};
use otel_worker::commands::mcp::resources::SpanText;
use serde_json::Value;

fn server_info() -> Implementation {
    Implementation { name: "otel-worker-cli".to_string(), version: "0.1.0".to_string() }
}

fn handle(request: RequestFromClient) -> Step {
    let request = ClientJsonrpcRequest { id: RequestId::Integer(7), request };
    handle_client_message(ClientMessage::Request(request), server_info()).unwrap()
}

fn result_of(message: ServerMessage) -> ResultFromServer {
    match message {
        ServerMessage::Response(response) => {
            assert!(matches!(response.id, RequestId::Integer(7)));
            response.result
        }
        other => panic!("{other:?}"),
    }
}

fn error_of(message: ServerMessage) -> JsonrpcErrorError {
    match message {
        ServerMessage::Error(error) => {
            assert!(matches!(error.id, RequestId::Integer(7)));
            assert!(error.error.data.is_none());
            error.error
        }
        other => panic!("{other:?}"),
    }
}

fn reply(step: Step) -> ServerMessage {
    match step {
        Step::Reply(message) => message,
        other => panic!("{other:?}"),
    }
}

fn arguments(entries: Vec<(&str, Value)>) -> Option<serde_json::Map<String, Value>> {
    Some(entries.into_iter().map(|(key, value)| (key.to_string(), value)).collect())
}

fn call(name: &str, arguments: Option<serde_json::Map<String, Value>>) -> Step {
    handle(RequestFromClient::CallTool(name.to_string(), arguments))
}

#[test]
fn a_conversation_opens_in_the_version_that_the_server_speaks() {
    let step = handle(RequestFromClient::Initialize("2024-11-05".to_string()));
    match result_of(reply(step)) {
        ResultFromServer::Initialize(result) => {
            assert_eq!(result.protocol_version, "2024-11-05");
            assert_eq!(result.instructions.as_deref(), Some("Sample instructions"));
            assert_eq!(result.server_info.name, "otel-worker-cli");
            assert_eq!(result.server_info.version, "0.1.0");
            let resources = result.capabilities.resources.unwrap();
            assert_eq!(resources.list_changed, Some(true));
            assert_eq!(resources.subscribe, None);
            assert_eq!(result.capabilities.tools.unwrap().list_changed, None);
            assert!(result.capabilities.experimental.is_none());
            assert!(result.capabilities.logging.is_none());
            assert!(result.capabilities.prompts.is_none());
        }
        other => panic!("{other:?}"),
    }
}

#[test]
fn a_conversation_in_another_version_is_refused() {
    for version in ["", "2024-11-5", "2025-03-26"] {
        let step = handle(RequestFromClient::Initialize(version.to_string()));
        let error = error_of(reply(step));
        assert_eq!(error.code, -32603);
        assert_eq!(error.message, "unsupported version");
    }
}

#[test]
fn a_ping_is_answered_with_nothing() {
    assert!(matches!(result_of(reply(handle(RequestFromClient::Ping))), ResultFromServer::Empty));
    assert!(matches!(handle_ping(), ResultFromServer::Empty));
}

#[test]
fn a_request_for_something_else_is_refused() {
    for request in [
        RequestFromClient::ListResourceTemplates,
        RequestFromClient::Subscribe,
        RequestFromClient::Unsubscribe,
        RequestFromClient::ListPrompts,
        RequestFromClient::GetPrompt,
        RequestFromClient::SetLevel,
        RequestFromClient::Complete,
        RequestFromClient::Custom,
    ] {
        let error = error_of(reply(handle(request)));
        assert_eq!(error.code, -32603);
        assert_eq!(error.message, "received unsupported json-rpc message");
    }
}

#[test]
fn only_a_request_is_answered() {
    for message in [
        ClientMessage::Notification,
        ClientMessage::Response(RequestId::Integer(1)),
        ClientMessage::Error(RequestId::Integer(1)),
    ] {
        assert!(handle_client_message(message, server_info()).is_none());
    }
}

#[test]
fn resources_are_listed_from_the_traces() {
    let pending = match handle(RequestFromClient::ListResources) {
        Step::ListTraces(pending) => pending,
        other => panic!("{other:?}"),
    };
    assert!(matches!(pending.call(), ApiCall::TraceList { limit: Some(50), time: None }));
    let traces = vec!["aa".to_string(), "bb".to_string()];
    match result_of(pending.finish(Ok(traces))) {
        ResultFromServer::ListResources(result) => {
            assert!(result.next_cursor.is_none());
            assert_eq!(result.resources.len(), 2);
            assert_eq!(result.resources[0].name, "trace aa");
            assert_eq!(result.resources[0].uri, "trace://aa");
            assert_eq!(result.resources[1].name, "trace bb");
            assert_eq!(result.resources[1].uri, "trace://bb");
            assert!(result.resources[1].description.is_none());
            assert!(result.resources[1].mime_type.is_none());
            assert!(result.resources[1].size.is_none());
        }
        other => panic!("{other:?}"),
    }
}

#[test]
fn a_failure_of_the_api_is_passed_on_in_its_own_words() {
    let pending = match handle(RequestFromClient::ListResources) {
        Step::ListTraces(pending) => pending,
        other => panic!("{other:?}"),
    };
    let error = error_of(pending.finish(Err("connection refused".to_string())));
    assert_eq!(error.code, -32603);
    assert_eq!(error.message, "connection refused");
}

#[test]
fn a_listed_resource_can_be_read() {
    let pending = match handle(RequestFromClient::ListResources) {
        Step::ListTraces(pending) => pending,
        other => panic!("{other:?}"),
    };
    let ids = ["aa", "", "a://b", "trace://", "é"];
    let traces = ids.iter().map(|id| id.to_string()).collect();
    let resources = match result_of(pending.finish(Ok(traces))) {
        ResultFromServer::ListResources(result) => result.resources,
        other => panic!("{other:?}"),
    };
    for (resource, id) in resources.into_iter().zip(ids) {
        match handle(RequestFromClient::ReadResource(resource.uri)) {
            Step::ReadSpans(pending) => assert_eq!(pending.trace_id, id),
            other => panic!("{other:?}"),
        }
    }
}

#[test]
fn a_trace_is_read_as_its_spans() {
    let pending = match handle(RequestFromClient::ReadResource("trace://aa".to_string())) {
        Step::ReadSpans(pending) => pending,
        other => panic!("{other:?}"),
    };
    assert!(matches!(pending.call(), ApiCall::SpanList { trace_id } if trace_id == "aa"));
    let span = SpanText { span_id: "cc".to_string(), json: "{}".to_string() };
    match result_of(pending.finish(vec![span])) {
        ResultFromServer::ReadResource(result) => {
            assert_eq!(result.contents.len(), 1);
            assert_eq!(result.contents[0].uri, "span://cc");
            assert_eq!(result.contents[0].text, "{}");
            assert_eq!(result.contents[0].mime_type.as_deref(), Some("application/json"));
        }
        other => panic!("{other:?}"),
    }
}

#[test]
fn a_uri_of_another_shape_or_kind_is_refused() {
    let step = handle(RequestFromClient::ReadResource("trace:aa".to_string()));
    let error = error_of(reply(step));
    assert_eq!((error.code, error.message.as_str()), (-32603, "invalid uri"));

    let step = handle(RequestFromClient::ReadResource("span://aa".to_string()));
    let error = error_of(reply(step));
    assert_eq!((error.code, error.message.as_str()), (-32603, "unknown resource type: span"));
}

#[test]
fn the_one_tool_is_listed() {
    match result_of(reply(handle(RequestFromClient::ListTools))) {
        ResultFromServer::ListTools(result) => {
            assert!(result.next_cursor.is_none());
            assert_eq!(result.tools.len(), 1);
            let tool = &result.tools[0];
            assert_eq!(tool.name, "get_trace");
            assert_eq!(
                tool.description.as_deref(),
                Some("Retrieve the raw trace for a single trace")
            );
            assert_eq!(tool.input_schema.required, vec!["trace_id".to_string()]);
        }
        other => panic!("{other:?}"),
    }
}

#[test]
fn a_listed_tool_can_be_called() {
    let tools = match result_of(reply(handle(RequestFromClient::ListTools))) {
        ResultFromServer::ListTools(result) => result.tools,
        other => panic!("{other:?}"),
    };
    for tool in tools {
        let required = tool.input_schema.required.iter();
        let given = required.map(|name| (name.as_str(), Value::String("aa".to_string()))).collect();
        match call(&tool.name, arguments(given)) {
            Step::GetTrace(pending) => assert_eq!(pending.trace_id.as_str(), "aa"),
            other => panic!("{other:?}"),
        }
    }
}

#[test]
fn a_call_without_what_the_tool_requires_is_refused() {
    for given in [
        None,
        arguments(vec![]),
        arguments(vec![("traceId", Value::String("aa".to_string()))]),
        arguments(vec![("trace_id", Value::Null)]),
        arguments(vec![("trace_id", Value::Bool(true))]),
        arguments(vec![("trace_id", Value::String("no hex".to_string()))]),
    ] {
        let error = error_of(reply(call("get_trace", given)));
        assert_eq!((error.code, error.message.as_str()), (-32602, "Invalid params"));
    }
}

#[test]
fn a_call_of_a_tool_that_there_is_not_is_refused() {
    let given = arguments(vec![("trace_id", Value::String("aa".to_string()))]);
    let error = error_of(reply(call("get_span", given)));
    assert_eq!((error.code, error.message.as_str()), (-32601, "Method not found"));
}

#[test]
fn the_tool_answers_with_the_trace() {
    let given = arguments(vec![
        ("trace_id", Value::String("aAbB".to_string())),
        ("more", Value::Null),
    ]);
    let pending = match call("get_trace", given) {
        Step::GetTrace(pending) => pending,
        other => panic!("{other:?}"),
    };
    assert!(matches!(pending.call(), ApiCall::TraceGet { trace_id } if trace_id == "aAbB"));
    match result_of(pending.finish(Ok("[1]".to_string()))) {
        ResultFromServer::CallTool(result) => {
            assert_eq!(result.content.len(), 1);
            assert_eq!(result.content[0].text, "[1]");
            assert!(result.is_error.is_none());
        }
        other => panic!("{other:?}"),
    }
}

#[test]
fn the_tool_passes_a_failure_of_the_api_on() {
    let given = arguments(vec![("trace_id", Value::String("aa".to_string()))]);
    let pending = match call("get_trace", given) {
        Step::GetTrace(pending) => pending,
        other => panic!("{other:?}"),
    };
    let error = error_of(pending.finish(Err("not found".to_string())));
    assert_eq!((error.code, error.message.as_str()), (-32603, "not found"));
}

#[test]
fn every_error_has_its_words() {
    for (error, words) in [
        (HandlerError::UnsupportedVersion, "unsupported version"),
        (HandlerError::InvalidUri, "invalid uri"),
        (HandlerError::UnknownResourceType("x".to_string()), "unknown resource type: x"),
        (HandlerError::UnsupportedMessage, "received unsupported json-rpc message"),
        (HandlerError::UnknownMethod, "unknown method"),
        (HandlerError::Upstream("down".to_string()), "down"),
    ] {
        assert_eq!(error.message(), words);
        let answered = error_of(answer(RequestId::Integer(7), Err(error)));
        assert_eq!((answered.code, answered.message.as_str()), (-32603, words));
    }
}
