use otel_worker::commands::mcp::ids::number_id;
use otel_worker::commands::mcp::messages::{
    JsonrpcErrorError, NotificationFromServer, RequestId, ResultFromServer, ServerMessage,
};
use otel_worker::commands::mcp::session::{
    draw_ids, McpSession, McpState, REGISTER_ATTEMPTS, SESSION_BUFFER,
};
use rust_mcp_schema::schema_utils::RequestFromServer;
use rust_mcp_schema::{PingRequest, ServerRequest};
use serde_json::Value;
use std::sync::Arc;

fn notification() -> NotificationFromServer {
    NotificationFromServer {
        method: "notifications/resources/list_changed".to_string(),
        params: Some(Value::Bool(true)),
    }
}

#[test]
fn a_session_holds_a_hundred_messages() {
    assert_eq!(SESSION_BUFFER, 100);
    let (session, mut receiver) = McpSession::new();
    assert_eq!(session.messages.max_capacity(), 100);
    for _ in 0..100 {
        let message = McpSession::send_notification(notification());
        assert!(session.messages.try_send(Arc::new(message)).is_ok());
    }
    let message = McpSession::send_notification(notification());
    assert!(session.messages.try_send(Arc::new(message)).is_err());
    let first = receiver.try_recv().unwrap();
    assert!(matches!(*first, ServerMessage::Notification(_)));
}

#[test]
fn messages_come_out_in_the_order_in_which_they_went_in() {
    let (session, mut receiver) = McpSession::new();
    for number in 0..3 {
        let id = RequestId::Integer(number);
        let message = McpSession::send_response(id, ResultFromServer::Empty);
        assert!(session.messages.try_send(Arc::new(message)).is_ok());
    }
    for number in 0..3 {
        match &*receiver.try_recv().unwrap() {
            ServerMessage::Response(response) => {
                assert!(matches!(&response.id, RequestId::Integer(it) if *it == number));
            }
            other => panic!("{other:?}"),
        }
    }
    assert!(receiver.try_recv().is_err());
}

#[test]
fn a_session_is_found_by_its_id_only() {
    let mut state = McpState::new();
    let (id, mut receiver) = state.register_session();
    assert!(state.get_session("").is_none());
    assert!(state.get_session(&id.to_uppercase()).is_none() || id == id.to_uppercase());
    let session = state.get_session(&id).unwrap();
    let message = McpSession::send_notification(notification());
    assert!(session.messages.try_send(Arc::new(message)).is_ok());
    assert!(receiver.try_recv().is_ok());
}

#[test]
fn an_id_has_the_shape_of_a_random_uuid() {
    let mut state = McpState::new();
    let (id, _receiver) = state.register_session();
    let characters: Vec<char> = id.chars().collect();
    assert_eq!(characters.len(), 36);
    for (i, c) in characters.iter().enumerate() {
        if [8, 13, 18, 23].contains(&i) {
            assert_eq!(*c, '-');
        } else {
            assert!(matches!(c, '0'..='9' | 'a'..='f'));
        }
    }
    assert_eq!(characters[14], '4');
    assert!(matches!(characters[19], '8' | '9' | 'a' | 'b'));
}

#[test]
fn an_id_that_is_taken_opens_no_session_and_closes_none() {
    let mut state = McpState::new();
    let (id, mut receiver) = state.insert_session("one".to_string()).unwrap();
    assert_eq!(id, "one");
    assert!(state.insert_session("one".to_string()).is_none());
    assert!(state.insert_session("two".to_string()).is_some());
    let session = state.get_session("one").unwrap();
    let message = McpSession::send_notification(notification());
    assert!(session.messages.try_send(Arc::new(message)).is_ok());
    assert!(receiver.try_recv().is_ok());
}

#[test]
fn of_the_ids_that_were_drawn_the_first_free_one_is_used() {
    let ids: Vec<String> = ["a", "b", "a", "c"].iter().map(|id| id.to_string()).collect();
    let mut state = McpState::new();
    for expected in ["a", "b", "c"] {
        let (id, mut receiver) = state.register_drawn(&ids);
        assert_eq!(id, expected);
        let session = state.get_session(&id).unwrap();
        let message = McpSession::send_notification(notification());
        assert!(session.messages.try_send(Arc::new(message)).is_ok());
        assert!(receiver.try_recv().is_ok());
    }
}

#[test]
fn where_all_ids_are_taken_a_numbered_one_is_used() {
    let mut state = McpState::new();
    state.insert_session("a".to_string()).unwrap();
    state.insert_session(number_id(1)).unwrap();
    let ids = vec!["a".to_string()];
    assert_eq!(state.register_drawn(&ids).0, number_id(0));
    assert_eq!(state.register_drawn(&ids).0, number_id(2));
    assert_eq!(state.register_drawn(&Vec::new()).0, number_id(3));
    let message = Arc::new(McpSession::send_notification(notification()));
    assert_eq!(state.broadcast(message).len(), 5);
}

#[test]
fn a_numbered_id_has_its_digits_and_the_shape_of_a_uuid() {
    assert_eq!(number_id(0), "00000000-0000-4000-8000-000000000000");
    assert_eq!(number_id(0x0123456789abcdef), "01234567-89ab-4000-8000-cdef00000000");
    assert_eq!(number_id(u64::MAX), "ffffffff-ffff-4000-8000-ffff00000000");
    assert_eq!(uuid::Uuid::parse_str(&number_id(7)).unwrap().get_version_num(), 4);
}

#[test]
fn as_many_ids_are_drawn_as_are_tried() {
    let ids = draw_ids();
    assert_eq!(ids.len(), REGISTER_ATTEMPTS);
    assert!(ids.iter().all(|id| id.len() == 36));
    assert_ne!(ids[0], ids[1]);
}

#[test]
fn a_message_for_one_session_reaches_no_other() {
    let mut state = McpState::new();
    let (a, mut messages_of_a) = state.register_session();
    let (_b, mut messages_of_b) = state.register_session();
    let session = state.get_session(&a).unwrap();
    let message = McpSession::send_notification(notification());
    assert!(session.messages.try_send(Arc::new(message)).is_ok());
    assert!(messages_of_b.try_recv().is_err());
    assert!(messages_of_a.try_recv().is_ok());
}

#[test]
fn a_message_to_all_reaches_every_session_once() {
    let mut state = McpState::new();
    let message = Arc::new(McpSession::send_response(
        RequestId::String("r".to_string()),
        ResultFromServer::Empty,
    ));
    assert!(state.broadcast(Arc::clone(&message)).is_empty());
    let mut receivers = Vec::new();
    for id in ["one", "two", "three"] {
        receivers.push(state.insert_session(id.to_string()).unwrap().1);
    }
    drop(receivers.remove(1));
    let mut ids = Vec::new();
    for delivery in state.broadcast(message) {
        ids.push(delivery.session_id);
        let sent = delivery.session.messages.try_send(delivery.message);
        assert_eq!(sent.is_ok(), delivery.session_id != "two");
    }
    ids.sort();
    assert_eq!(ids, vec!["one", "three", "two"]);
    for mut receiver in receivers {
        match &*receiver.try_recv().unwrap() {
            ServerMessage::Response(response) => {
                assert!(matches!(&response.id, RequestId::String(text) if text == "r"));
                assert!(matches!(response.result, ResultFromServer::Empty));
            }
            other => panic!("{other:?}"),
        }
        assert!(receiver.try_recv().is_err());
    }
}

#[test]
fn every_session_is_told_once() {
    let mut state = McpState::new();
    let mut receivers = Vec::new();
    for id in ["one", "two", "three"] {
        receivers.push(state.insert_session(id.to_string()).unwrap().1);
    }
    for delivery in state.broadcast_notification(notification()) {
        assert!(delivery.session.messages.try_send(delivery.message).is_ok());
    }
    for mut receiver in receivers {
        match &*receiver.try_recv().unwrap() {
            ServerMessage::Notification(it) => {
                assert_eq!(it.notification.method, "notifications/resources/list_changed");
                assert_eq!(it.notification.params, Some(Value::Bool(true)));
            }
            other => panic!("{other:?}"),
        }
        assert!(receiver.try_recv().is_err());
    }
}

#[test]
fn shutting_down_closes_no_session() {
    let mut state = McpState::new();
    let (id, _receiver) = state.register_session();
    assert!(!state.is_shutting_down());
    state.shutdown();
    assert!(state.is_shutting_down());
    assert!(state.get_session(&id).is_some());
}

#[test]
fn messages_carry_what_they_are_made_of() {
    let id = RequestId::String("a".to_string());
    let ping = RequestFromServer::ServerRequest(ServerRequest::PingRequest(PingRequest::new(None)));
    match McpSession::send_request(id, ping) {
        ServerMessage::Request(request) => {
            assert!(matches!(request.id, RequestId::String(text) if text == "a"));
            assert_eq!(request.request.method(), "ping");
        }
        other => panic!("{other:?}"),
    }
    let error = JsonrpcErrorError { code: -1, message: "no".to_string(), data: None };
    match McpSession::send_error(RequestId::Integer(3), error) {
        ServerMessage::Error(error) => {
            assert!(matches!(error.id, RequestId::Integer(3)));
            assert_eq!((error.error.code, error.error.message.as_str()), (-1, "no"));
        }
        other => panic!("{other:?}"),
    }
}
