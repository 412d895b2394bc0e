use otel_worker::commands::mcp::messages::{
    ClientMessage, InvalidMessage, RequestFromClient, RequestId, INTERNAL_ERROR, INVALID_PARAMS,
    METHOD_NOT_FOUND,
};
use rust_mcp_schema::schema_utils::RpcErrorCodes;

fn request(text: &str) -> (RequestId, RequestFromClient) {
    match ClientMessage::parse(text) {
        Ok(ClientMessage::Request(request)) => (request.id, request.request),
        other => panic!("{other:?}"),
    }
}

#[test]
fn the_codes_are_those_of_the_protocol() {
    assert_eq!(INTERNAL_ERROR, i64::from(RpcErrorCodes::INTERNAL_ERROR));
    assert_eq!(INVALID_PARAMS, i64::from(RpcErrorCodes::INVALID_PARAMS));
    assert_eq!(METHOD_NOT_FOUND, i64::from(RpcErrorCodes::METHOD_NOT_FOUND));
}

#[test]
fn opening_a_conversation_is_read_with_its_version() {
    let (id, request) = request(
        r#"{"jsonrpc":"2.0","id":0,"method":"initialize","params":{"protocolVersion":"2024-11-05",
        "capabilities":{},"clientInfo":{"name":"client","version":"1"}}}"#,
    );
    assert!(matches!(id, RequestId::Integer(0)));
    assert!(matches!(request, RequestFromClient::Initialize(version) if version == "2024-11-05"));
}

#[test]
fn an_id_may_be_a_text() {
    let (id, request) = request(r#"{"jsonrpc":"2.0","id":"seven","method":"ping"}"#);
    assert!(matches!(id, RequestId::String(text) if text == "seven"));
    assert!(matches!(request, RequestFromClient::Ping));
}

#[test]
fn requests_for_lists_are_read() {
    let (_, resources) = request(r#"{"jsonrpc":"2.0","id":1,"method":"resources/list"}"#);
    assert!(matches!(resources, RequestFromClient::ListResources));
    let (_, tools) = request(r#"{"jsonrpc":"2.0","id":1,"method":"tools/list","params":{}}"#);
    assert!(matches!(tools, RequestFromClient::ListTools));
}

#[test]
fn a_request_for_a_resource_is_read_with_its_uri() {
    let (_, request) = request(
        r#"{"jsonrpc":"2.0","id":1,"method":"resources/read","params":{"uri":"trace://aa"}}"#,
    );
    assert!(matches!(request, RequestFromClient::ReadResource(uri) if uri == "trace://aa"));
}

#[test]
fn a_call_of_a_tool_is_read_with_its_arguments() {
    let (_, request) = request(
        r#"{"jsonrpc":"2.0","id":1,"method":"tools/call",
        "params":{"name":"get_trace","arguments":{"trace_id":"aa"}}}"#,
    );
    match request {
        RequestFromClient::CallTool(name, Some(arguments)) => {
            assert_eq!(name, "get_trace");
            assert_eq!(arguments.len(), 1);
            assert_eq!(arguments["trace_id"].as_str(), Some("aa"));
        }
        other => panic!("{other:?}"),
    }
}

#[test]
fn requests_that_are_not_served_are_told_apart() {
    let templates = r#"{"jsonrpc":"2.0","id":1,"method":"resources/templates/list"}"#;
    assert!(matches!(request(templates).1, RequestFromClient::ListResourceTemplates));
    let subscribe =
        r#"{"jsonrpc":"2.0","id":1,"method":"resources/subscribe","params":{"uri":"trace://aa"}}"#;
    assert!(matches!(request(subscribe).1, RequestFromClient::Subscribe));
    let unsubscribe =
        r#"{"jsonrpc":"2.0","id":1,"method":"resources/unsubscribe","params":{"uri":"a://b"}}"#;
    assert!(matches!(request(unsubscribe).1, RequestFromClient::Unsubscribe));
    let prompt = r#"{"jsonrpc":"2.0","id":1,"method":"prompts/get","params":{"name":"x"}}"#;
    assert!(matches!(request(prompt).1, RequestFromClient::GetPrompt));
    let level =
        r#"{"jsonrpc":"2.0","id":1,"method":"logging/setLevel","params":{"level":"info"}}"#;
    assert!(matches!(request(level).1, RequestFromClient::SetLevel));
    let complete = r#"{"jsonrpc":"2.0","id":1,"method":"completion/complete","params":
        {"argument":{"name":"a","value":"b"},"ref":{"type":"ref/prompt","name":"c"}}}"#;
    assert!(matches!(request(complete).1, RequestFromClient::Complete));
    let (_, prompts) = request(r#"{"jsonrpc":"2.0","id":1,"method":"prompts/list"}"#);
    assert!(matches!(prompts, RequestFromClient::ListPrompts));
    let (_, custom) = request(r#"{"jsonrpc":"2.0","id":1,"method":"spans/count"}"#);
    assert!(matches!(custom, RequestFromClient::Custom));
}

#[test]
fn messages_that_are_no_requests_are_told_apart() {
    let notification = r#"{"jsonrpc":"2.0","method":"notifications/initialized"}"#;
    assert!(matches!(ClientMessage::parse(notification), Ok(ClientMessage::Notification)));
    let response = r#"{"jsonrpc":"2.0","id":1,"result":{}}"#;
    assert!(matches!(
        ClientMessage::parse(response),
        Ok(ClientMessage::Response(RequestId::Integer(1)))
    ));
    let error = r#"{"jsonrpc":"2.0","id":1,"error":{"code":-1,"message":"no"}}"#;
    assert!(matches!(
        ClientMessage::parse(error),
        Ok(ClientMessage::Error(RequestId::Integer(1)))
    ));
}

#[test]
fn a_text_that_is_no_message_is_refused() {
    for text in ["", "{", "[]", "7", r#"{"jsonrpc":"2.0"}"#] {
        assert!(matches!(ClientMessage::parse(text), Err(InvalidMessage)), "{text}");
    }
}
