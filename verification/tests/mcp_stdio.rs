use otel_worker::commands::mcp::dispatch::Step;
use otel_worker::commands::mcp::messages::{Implementation, RequestId, ServerMessage};
use otel_worker::commands::mcp::stdio::{on_message, on_stdin, StdinAction, StdoutAction};

fn read(line: Option<&str>) -> StdinAction {
    let server_info =
        Implementation { name: "otel-worker-cli".to_string(), version: "0.1.0".to_string() };
    on_stdin(line, server_info)
}

fn written(json: &str) -> String {
    match on_message(Some(json.to_string())) {
        StdoutAction::Write(line) => line,
        other => panic!("{other:?}"),
    }
}

#[test]
fn a_line_that_is_a_request_is_answered() {
    match read(Some("{\"jsonrpc\":\"2.0\",\"id\":\"a\",\"method\":\"ping\"}\n")) {
        StdinAction::Handle(Some(Step::Reply(ServerMessage::Response(response)))) => {
            assert!(matches!(response.id, RequestId::String(text) if text == "a"));
        }
        other => panic!("{other:?}"),
    }
}

#[test]
fn a_line_that_is_a_notification_is_not_answered() {
    let line = r#"{"jsonrpc":"2.0","method":"notifications/initialized"}"#;
    assert!(matches!(read(Some(line)), StdinAction::Handle(None)));
}

#[test]
fn a_line_that_is_no_message_fails() {
    for line in ["", "\n", "ping\n"] {
        assert!(matches!(read(Some(line)), StdinAction::Fail(_)));
    }
}

#[test]
fn after_a_failure_to_read_nothing_is_read() {
    assert!(matches!(read(None), StdinAction::Stop));
}

#[test]
fn a_message_is_written_on_a_line_of_its_own() {
    assert_eq!(written("{}"), "{}\n");
    assert_eq!(written(""), "\n");
}

#[test]
fn after_the_last_message_nothing_is_written() {
    assert!(matches!(on_message(None), StdoutAction::Stop));
}

#[test]
fn messages_are_told_apart_by_their_lines() {
    let messages = ["{\"a\":1}", "", "{\"b\":\"\\n\"}"];
    let mut text = String::new();
    for message in messages {
        text.push_str(&written(message));
    }
    let lines: Vec<&str> = text.strip_suffix('\n').unwrap().split('\n').collect();
    assert_eq!(lines, messages);
}
