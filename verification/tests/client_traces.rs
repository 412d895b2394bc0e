use otel_worker::api::ApiCall;
use otel_worker::commands::client::traces::{
    handle_command, handle_delete, handle_get, handle_list, list_request, Args, Command,
    CommandError, DeleteArgs, GetArgs, ListArgs,
};
use otel_worker::commands::util::Timestamp;

const BASE_URL: &str = "http://127.0.0.1:6767";

fn list(limit: Option<u32>, time: Option<&str>) -> ListArgs {
    ListArgs {
        limit,
        time: time.map(str::to_string),
        base_url: BASE_URL.to_string(),
        auth_token: None,
    }
}

#[test]
fn getting_a_trace_prints_it() {
    let request = handle_get(GetArgs {
        trace_id: "aa".to_string(),
        base_url: BASE_URL.to_string(),
        auth_token: Some("secret".to_string()),
    });
    assert_eq!(request.base_url, BASE_URL);
    assert_eq!(request.bearer_token.as_deref(), Some("secret"));
    assert!(matches!(request.call, ApiCall::TraceGet { trace_id } if trace_id == "aa"));
    assert!(request.print);
}

#[test]
fn deleting_a_trace_prints_nothing() {
    let request = handle_delete(DeleteArgs {
        trace_id: "aa".to_string(),
        base_url: BASE_URL.to_string(),
        auth_token: None,
    });
    assert_eq!(request.base_url, BASE_URL);
    assert_eq!(request.bearer_token, None);
    assert!(matches!(request.call, ApiCall::TraceDelete { trace_id } if trace_id == "aa"));
    assert!(!request.print);
}

#[test]
fn traces_are_listed_without_limits() {
    let request = handle_list(list(None, None)).unwrap();
    assert!(matches!(request.call, ApiCall::TraceList { limit: None, time: None }));
    assert!(request.print);
}

#[test]
fn traces_are_listed_up_to_a_time() {
    let request = handle_list(list(Some(3), Some("1970-01-01T00:00:01+00:01"))).unwrap();
    let wanted = Timestamp { unix_nanos: -59000000000, offset_seconds: 60 };
    match request.call {
        ApiCall::TraceList { limit, time } => {
            assert_eq!(limit, Some(3));
            assert_eq!(time, Some(wanted));
        }
        other => panic!("{other:?}"),
    }
}

#[test]
fn no_call_is_made_with_a_time_in_another_notation() {
    let error = handle_list(list(None, Some("yesterday"))).unwrap_err();
    let format = &time::format_description::well_known::Rfc3339;
    let cause = time::OffsetDateTime::parse("yesterday", format).unwrap_err();
    assert_eq!(
        error.message(),
        format!("failed to parse time argument as rfc3339: {cause}")
    );
}

#[test]
fn a_list_request_carries_the_time_that_was_read() {
    let time = Timestamp { unix_nanos: 5, offset_seconds: 0 };
    let request = list_request(list(Some(1), Some("ignored")), Some(time));
    assert!(matches!(
        request.call,
        ApiCall::TraceList { limit: Some(1), time: Some(it) } if it == time
    ));
}

#[test]
fn each_command_comes_to_its_call() {
    let get = GetArgs {
        trace_id: "aa".to_string(),
        base_url: BASE_URL.to_string(),
        auth_token: None,
    };
    let request = handle_command(Args { command: Command::Get(get) }).unwrap();
    assert!(matches!(request.call, ApiCall::TraceGet { .. }));

    let delete = DeleteArgs {
        trace_id: "bb".to_string(),
        base_url: BASE_URL.to_string(),
        auth_token: None,
    };
    let request = handle_command(Args { command: Command::Delete(delete) }).unwrap();
    assert!(matches!(request.call, ApiCall::TraceDelete { .. }));

    let args = Args { command: Command::List(list(Some(7), None)) };
    let request = handle_command(args).unwrap();
    assert!(matches!(request.call, ApiCall::TraceList { limit: Some(7), time: None }));

    let args = Args { command: Command::List(list(None, Some(""))) };
    assert!(matches!(handle_command(args), Err(CommandError::InvalidTime(_))));
}
