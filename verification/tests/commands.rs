use otel_worker::api::ApiCall;
use otel_worker::commands::client::traces::{self, GetArgs};
use otel_worker::commands::mcp::websocket::WsUrlError;
use otel_worker::commands::mcp::{self, Serve, Transport};
use otel_worker::commands::system::database::{
    self, handle_delete_database, DatabaseAction, DeletePlan,
};
use otel_worker::commands::system::{self, handle_otel_worker_directory_command, SystemAction};
use otel_worker::commands::client::ClientAction;
use otel_worker::commands::{client, handle_command, Action, Args, Command};
use otel_worker::xtask;

fn run(command: Command<&'static str, u8, u8, u8>) -> Action<&'static str, u8, u8, u8> {
    handle_command(Args {
        command,
        enable_tracing: false,
        otlp_endpoint: "http://localhost:4317".to_string(),
        otel_worker_directory: None,
        debug: false,
    })
}

fn mcp_args(url: &str, transport: Transport) -> mcp::Args {
    mcp::Args {
        otel_worker_url: url.to_string(),
        otel_worker_token: Some("secret".to_string()),
        transport,
        listen_address: "127.0.0.1:3001".to_string(),
    }
}

#[test]
fn a_command_to_the_client_comes_to_a_call() {
    let get = GetArgs {
        trace_id: "aa".to_string(),
        base_url: "http://a".to_string(),
        auth_token: None,
    };
    let args = traces::Args { command: traces::Command::Get(get) };
    let action = run(Command::Client(client::Args {
        command: client::Command::Traces(args),
        base_url: "http://a".to_string(),
        auth_token: None,
    }));
    match action {
        Action::Client(ClientAction::Traces(Ok(request))) => {
            assert!(matches!(request.call, ApiCall::TraceGet { trace_id } if trace_id == "aa"));
        }
        other => panic!("{other:?}"),
    }
}

#[test]
fn commands_that_others_handle_are_handed_on_with_their_arguments() {
    assert!(matches!(run(Command::Dev(7)), Action::Dev(7)));
    assert!(matches!(run(Command::Debug(8)), Action::Debug(8)));
    let action = run(Command::Client(client::Args {
        command: client::Command::Spans(9),
        base_url: "http://a".to_string(),
        auth_token: Some("secret".to_string()),
    }));
    match action {
        Action::Client(ClientAction::Spans { args, auth_token }) => {
            assert_eq!(args, 9);
            assert_eq!(auth_token.as_deref(), Some("secret"));
        }
        other => panic!("{other:?}"),
    }
    let args = xtask::Args { command: xtask::Command::GenerateSchemas("all") };
    assert!(matches!(xtask::handle_command(args), xtask::Action::GenerateSchemas("all")));
}

#[test]
fn a_command_to_the_system_comes_to_an_action() {
    let args = system::Args { command: system::Command::OtelWorkerDirectory };
    let action = run(Command::System(args));
    assert!(matches!(action, Action::System(SystemAction::ReportDirectory)));

    let delete = database::Args {
        command: database::Command::Delete,
        otel_worker_directory: Some("/w"),
    };
    let args = system::Args { command: system::Command::Database(delete) };
    let action = run(Command::System(args));
    assert!(matches!(
        action,
        Action::System(SystemAction::Database(DatabaseAction::Delete {
            otel_worker_directory: Some("/w")
        }))
    ));
}

#[test]
fn an_mcp_server_connects_to_the_otel_worker_and_serves_one_transport() {
    let action = run(Command::Mcp(mcp_args("http://127.0.0.1:6767", Transport::Sse)));
    match action {
        Action::Mcp(Ok(plan)) => {
            assert_eq!(plan.websocket_url, "ws://127.0.0.1:6767/api/ws");
            assert_eq!(plan.base_url, "http://127.0.0.1:6767");
            assert_eq!(plan.bearer_token.as_deref(), Some("secret"));
            assert!(matches!(plan.serve, Serve::Sse(address) if address == "127.0.0.1:3001"));
        }
        other => panic!("{other:?}"),
    }
    let plan = mcp::handle_command(mcp_args("https://a.b", Transport::Stdio)).unwrap();
    assert_eq!(plan.websocket_url, "wss://a.b/api/ws");
    assert!(matches!(plan.serve, Serve::Stdio));
}

#[test]
fn without_a_websocket_there_is_no_mcp_server() {
    let error = mcp::handle_command(mcp_args("ftp://a.b", Transport::Stdio)).unwrap_err();
    assert!(matches!(error, WsUrlError::UnsupportedScheme(scheme) if scheme == "ftp"));
    let error = mcp::handle_command(mcp_args("nowhere", Transport::Sse)).unwrap_err();
    assert!(matches!(error, WsUrlError::InvalidUrl));
}

#[test]
fn standard_input_and_output_are_the_default_transport() {
    assert_eq!(Transport::default(), Transport::Stdio);
}

#[test]
fn the_directory_is_reported_in_words() {
    assert_eq!(
        handle_otel_worker_directory_command(Some("/w/.otel-worker".to_string())),
        "otel worker directory found: /w/.otel-worker"
    );
    assert_eq!(handle_otel_worker_directory_command(None), "otel worker directory not found");
}

#[test]
fn the_database_is_deleted_where_it_is_asked_for_or_found() {
    assert!(matches!(handle_delete_database(Some("a"), Some("b")), DeletePlan::Remove("a")));
    assert!(matches!(handle_delete_database(Some("a"), None), DeletePlan::Remove("a")));
    assert!(matches!(handle_delete_database(None, Some("b")), DeletePlan::Remove("b")));
    assert!(matches!(handle_delete_database::<&str>(None, None), DeletePlan::Skip));
}
