use otel_worker::api::ApiCall;
use otel_worker::commands::mcp::error::HandlerError;
use otel_worker::commands::mcp::http_sse::{
    answer_id, first_event, handle_call, json_rpc_handler, method_call, method_of, respond,
    AnswerId, CallStep, InvalidCall, Method, MethodCall, KEEP_ALIVE_SECONDS,
};
use otel_worker::commands::mcp::messages::{
    Implementation, RequestId, ResultFromServer, ServerMessage,
};

const INITIALIZE: &str = r#"{"protocolVersion":"2024-11-05","capabilities":{},
    "clientInfo":{"name":"client","version":"1"}}"#;

fn server_info() -> Implementation {
    Implementation { name: "otel-worker-cli".to_string(), version: "0.1.0".to_string() }
}

fn handle(call: MethodCall) -> CallStep {
    handle_call(call, server_info())
}

#[test]
fn a_call_is_made_of_its_method_and_its_parameters() {
    let call = method_call("initialize", INITIALIZE).unwrap();
    assert!(matches!(call, MethodCall::Initialize(version) if version == "2024-11-05"));
    let call = method_call("resources/read", r#"{"uri":"trace://aa"}"#).unwrap();
    assert!(matches!(call, MethodCall::ResourcesRead(uri) if uri == "trace://aa"));
    for params in ["null", "{}", r#"{"cursor":"a"}"#] {
        let call = method_call("resources/list", params).unwrap();
        assert!(matches!(call, MethodCall::ResourcesList));
    }
    for params in ["null", "no JSON"] {
        let call = method_call("tools/list", params).unwrap();
        assert!(matches!(call, MethodCall::Unknown));
    }
}

#[test]
fn a_call_with_other_parameters_is_none() {
    for (name, params) in [
        ("initialize", "{}"),
        ("initialize", r#"{"uri":"trace://aa"}"#),
        ("resources/read", "null"),
        ("resources/read", r#"{"uri":7}"#),
        ("resources/list", "7"),
        ("resources/list", r#"{"cursor":7}"#),
        ("resources/list", ""),
    ] {
        assert!(matches!(method_call(name, params), Err(InvalidCall)), "{name} {params}");
        assert!(json_rpc_handler(name, params, server_info()).is_err());
    }
}

#[test]
fn a_call_is_handled_from_its_text() {
    let step = json_rpc_handler("initialize", INITIALIZE, server_info()).unwrap();
    assert!(matches!(step, CallStep::Done(Ok(ResultFromServer::Initialize(_)))));
    let step = json_rpc_handler("resources/list", "null", server_info()).unwrap();
    assert!(matches!(step, CallStep::Call(ApiCall::TraceList { limit: Some(50), time: None })));
    let params = r#"{"uri":"trace://aa"}"#;
    let step = json_rpc_handler("resources/read", params, server_info()).unwrap();
    assert!(matches!(
        step,
        CallStep::Call(ApiCall::SpanList { trace_id }) if trace_id == "aa"
    ));
    let step = json_rpc_handler("ping", "null", server_info()).unwrap();
    assert!(matches!(step, CallStep::Done(Err(HandlerError::UnknownMethod))));
}

#[test]
fn the_methods_have_their_names() {
    assert_eq!(method_of("initialize"), Method::Initialize);
    assert_eq!(method_of("resources/list"), Method::ResourcesList);
    assert_eq!(method_of("resources/read"), Method::ResourcesRead);
    assert_eq!(method_of("tools/list"), Method::Unknown);
    assert_eq!(method_of(""), Method::Unknown);
}

#[test]
fn calls_get_as_far_as_they_do_without_the_api() {
    let step = handle(MethodCall::Initialize("2024-11-05".to_string()));
    assert!(matches!(step, CallStep::Done(Ok(ResultFromServer::Initialize(_)))));
    let step = handle(MethodCall::Initialize("2025".to_string()));
    assert!(matches!(step, CallStep::Done(Err(HandlerError::UnsupportedVersion))));
    let step = handle(MethodCall::ResourcesList);
    assert!(matches!(
        step,
        CallStep::Call(ApiCall::TraceList { limit: Some(50), time: None })
    ));
    let step = handle(MethodCall::ResourcesRead("trace://aa".to_string()));
    assert!(matches!(
        step,
        CallStep::Call(ApiCall::SpanList { trace_id }) if trace_id == "aa"
    ));
    let step = handle(MethodCall::ResourcesRead("aa".to_string()));
    assert!(matches!(step, CallStep::Done(Err(HandlerError::InvalidUri))));
    let step = handle(MethodCall::ResourcesRead("log://aa".to_string()));
    assert!(matches!(
        step,
        CallStep::Done(Err(HandlerError::UnknownResourceType(kind))) if kind == "log"
    ));
    let step = handle(MethodCall::Unknown);
    assert!(matches!(step, CallStep::Done(Err(HandlerError::UnknownMethod))));
}

#[test]
fn an_answer_is_found_by_the_id_of_the_call() {
    assert!(matches!(answer_id(AnswerId::Num(-4)), Some(RequestId::Integer(-4))));
    let id = answer_id(AnswerId::Str("x".to_string()));
    assert!(matches!(id, Some(RequestId::String(text)) if text == "x"));
    assert!(answer_id(AnswerId::Missing).is_none());
}

#[test]
fn a_result_is_answered_with() {
    match respond(RequestId::Integer(1), Ok(ResultFromServer::Empty)) {
        ServerMessage::Response(response) => {
            assert!(matches!(response.id, RequestId::Integer(1)));
            assert!(matches!(response.result, ResultFromServer::Empty));
        }
        other => panic!("{other:?}"),
    }
}

#[test]
fn what_an_error_was_is_kept_from_the_clients() {
    for error in [HandlerError::InvalidUri, HandlerError::Upstream("down".to_string())] {
        match respond(RequestId::Integer(1), Err(error)) {
            ServerMessage::Error(answer) => {
                assert!(matches!(answer.id, RequestId::Integer(1)));
                assert_eq!(answer.error.code, -32603);
                assert_eq!(answer.error.message, "error_message");
            }
            other => panic!("{other:?}"),
        }
    }
}

#[test]
fn the_first_event_names_the_common_endpoint() {
    let event = first_event();
    assert_eq!(event.event, "endpoint");
    assert_eq!(event.data, "/messages");
    assert_eq!(KEEP_ALIVE_SECONDS, 5);
}
