use http::StatusCode;
use otel_worker::commands::mcp::dispatch::Step;
use otel_worker::commands::mcp::ids::number_id;
use otel_worker::commands::mcp::messages::{ClientMessage, Implementation, ServerMessage};
use otel_worker::commands::mcp::session::McpState;
use otel_worker::commands::mcp::sse::{
    endpoint_event, json_rpc_handler, message_event, open_stream, sse_handler, Admission,
    InvalidQuery, JsonRpcQuery, Opening, ACCEPTED, BAD_REQUEST, SERVICE_UNAVAILABLE,
};
use std::sync::Arc;

fn server_info() -> Implementation {
    Implementation { name: "otel-worker-cli".to_string(), version: "0.1.0".to_string() }
}

fn ping() -> ClientMessage {
    ClientMessage::parse(r#"{"jsonrpc":"2.0","id":1,"method":"ping"}"#).unwrap()
}

fn query(session_id: Option<&str>) -> JsonRpcQuery {
    JsonRpcQuery::new(session_id.map(str::to_string))
}

#[test]
fn the_statuses_are_what_they_are_called() {
    assert_eq!(ACCEPTED, StatusCode::ACCEPTED.as_u16());
    assert_eq!(BAD_REQUEST, StatusCode::BAD_REQUEST.as_u16());
    assert_eq!(SERVICE_UNAVAILABLE, StatusCode::SERVICE_UNAVAILABLE.as_u16());
}

#[test]
fn a_query_is_form_encoded() {
    assert_eq!(query(None).to_querystring(), "");
    assert_eq!(query(Some("")).to_querystring(), "session_id=");
    assert_eq!(query(Some("aB-0_.*")).to_querystring(), "session_id=aB-0_.*");
    assert_eq!(query(Some("a b&c=é~")).to_querystring(), "session_id=a+b%26c%3D%C3%A9%7E");
}

#[test]
fn a_query_is_read_back_as_it_was_written() {
    for id in ["", "a", "a b", "a+b", "a&b=c", "%41", "é\n", "😀"] {
        let read = JsonRpcQuery::from_querystring(&query(Some(id)).to_querystring()).unwrap();
        assert_eq!(read.session_id.as_deref(), Some(id));
    }
    let read = JsonRpcQuery::from_querystring(&query(None).to_querystring()).unwrap();
    assert_eq!(read.session_id, None);
}

#[test]
fn other_names_in_a_query_do_not_matter() {
    let read = JsonRpcQuery::from_querystring("a=b&session_id=%41+1&c").unwrap();
    assert_eq!(read.session_id.as_deref(), Some("A 1"));
    let read = JsonRpcQuery::from_querystring("Session_id=a").unwrap();
    assert_eq!(read.session_id, None);
}

#[test]
fn a_query_with_two_sessions_is_refused() {
    let read = JsonRpcQuery::from_querystring("session_id=a&session_id=a");
    assert!(matches!(read, Err(InvalidQuery)));
    let pairs = vec![
        ("session_id".to_string(), "a".to_string()),
        ("x".to_string(), "y".to_string()),
        ("session_id".to_string(), "b".to_string()),
    ];
    assert!(matches!(JsonRpcQuery::from_pairs(&pairs), Err(InvalidQuery)));
}

#[test]
fn the_first_event_names_the_endpoint() {
    let event = endpoint_event("0a b".to_string());
    assert_eq!(event.event, "endpoint");
    assert_eq!(event.data, "/messages?session_id=0a+b");
}

#[test]
fn a_message_is_an_event_of_its_own() {
    let event = message_event("{}".to_string());
    assert_eq!(event.event, "message");
    assert_eq!(event.data, "{}");
}

#[test]
fn the_endpoint_spells_the_session_out() {
    let mut state = McpState::new();
    match sse_handler(&mut state) {
        Opening::Opened { session_id, first, .. } => {
            assert_eq!(first.event, "endpoint");
            assert_eq!(first.data, format!("/messages?session_id={session_id}"));
        }
        other => panic!("{other:?}"),
    }
}

#[test]
fn a_stream_opens_under_the_first_free_id() {
    let mut state = McpState::new();
    state.insert_session("one".to_string()).unwrap();
    let ids = vec!["one".to_string(), "two".to_string()];
    match open_stream(&mut state, &ids) {
        Opening::Opened { session_id, first, .. } => {
            assert_eq!(session_id, "two");
            assert_eq!(first.data, "/messages?session_id=two");
        }
        other => panic!("{other:?}"),
    }
    match open_stream(&mut state, &ids) {
        Opening::Opened { session_id, first, .. } => {
            assert_eq!(session_id, number_id(0));
            assert_eq!(first.data, format!("/messages?session_id={session_id}"));
        }
        other => panic!("{other:?}"),
    }
    assert!(state.get_session("two").is_some());
}

#[test]
fn an_answer_comes_out_on_the_stream_of_its_client_only() {
    let mut state = McpState::new();
    let (_, mut messages_of_a) = state.insert_session("a".to_string()).unwrap();
    let (_, mut messages_of_b) = state.insert_session("b".to_string()).unwrap();
    match json_rpc_handler(&state, query(Some("a")), ping(), server_info()) {
        Admission::Accepted { session, step: Some(Step::Reply(message)) } => {
            assert!(session.messages.try_send(Arc::new(message)).is_ok());
        }
        other => panic!("{other:?}"),
    }
    assert!(messages_of_b.try_recv().is_err());
    assert!(messages_of_a.try_recv().is_ok());
}

#[test]
fn two_sessions_have_two_endpoints() {
    let mut state = McpState::new();
    let mut endpoints = Vec::new();
    for _ in 0..2 {
        match sse_handler(&mut state) {
            Opening::Opened { first, .. } => endpoints.push(first.data),
            other => panic!("{other:?}"),
        }
    }
    assert_ne!(endpoints[0], endpoints[1]);
}

#[test]
fn a_client_that_posts_to_its_endpoint_is_let_in() {
    let mut state = McpState::new();
    let (first, mut messages) = match sse_handler(&mut state) {
        Opening::Opened { first, messages, .. } => (first, messages),
        other => panic!("{other:?}"),
    };
    let text = first.data.strip_prefix("/messages?").unwrap();
    let read = JsonRpcQuery::from_querystring(text).unwrap();
    match json_rpc_handler(&state, read, ping(), server_info()) {
        Admission::Accepted { session, step: Some(Step::Reply(message)) } => {
            assert!(session.messages.try_send(Arc::new(message)).is_ok());
        }
        other => panic!("{other:?}"),
    }
    assert!(matches!(*messages.try_recv().unwrap(), ServerMessage::Response(_)));
}

#[test]
fn who_was_let_in_still_is_when_others_come() {
    let mut state = McpState::new();
    let mut ids = Vec::new();
    let mut receivers = Vec::new();
    for _ in 0..3 {
        match sse_handler(&mut state) {
            Opening::Opened { session_id, messages, .. } => {
                ids.push(session_id);
                receivers.push(messages);
            }
            other => panic!("{other:?}"),
        }
    }
    for (id, receiver) in ids.iter().zip(receivers.iter_mut()) {
        match json_rpc_handler(&state, query(Some(id)), ping(), server_info()) {
            Admission::Accepted { session, step: Some(Step::Reply(message)) } => {
                assert!(session.messages.try_send(Arc::new(message)).is_ok());
            }
            other => panic!("{other:?}"),
        }
        assert!(receiver.try_recv().is_ok());
    }
}

#[test]
fn a_message_that_is_no_request_is_taken_in_without_an_answer() {
    let mut state = McpState::new();
    state.insert_session("one".to_string()).unwrap();
    let message = ClientMessage::Notification;
    match json_rpc_handler(&state, query(Some("one")), message, server_info()) {
        Admission::Accepted { step, .. } => assert!(step.is_none()),
        other => panic!("{other:?}"),
    }
}

#[test]
fn a_message_for_no_session_is_turned_away() {
    let state = McpState::new();
    match json_rpc_handler(&state, query(None), ping(), server_info()) {
        Admission::Refused(refusal) => {
            assert_eq!((refusal.status, refusal.body.as_str()), (400, "session_id is required"));
        }
        other => panic!("{other:?}"),
    }
}

#[test]
fn a_message_for_a_session_that_there_is_not_is_turned_away() {
    let mut state = McpState::new();
    state.insert_session("one".to_string()).unwrap();
    for id in ["", "two", "ONE"] {
        match json_rpc_handler(&state, query(Some(id)), ping(), server_info()) {
            Admission::Refused(refusal) => {
                assert_eq!((refusal.status, refusal.body.as_str()), (400, "session not found"));
            }
            other => panic!("{other:?}"),
        }
    }
}

#[test]
fn on_its_way_out_the_server_opens_no_session() {
    let mut state = McpState::new();
    state.insert_session("one".to_string()).unwrap();
    state.shutdown();
    match sse_handler(&mut state) {
        Opening::Refused(refusal) => {
            assert_eq!((refusal.status, refusal.body.as_str()), (503, "server is shutting down"));
        }
        other => panic!("{other:?}"),
    }
    assert!(state.get_session("one").is_some());
}
