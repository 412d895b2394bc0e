//! What the commands of the command line decide.
use client::ClientAction;
use mcp::websocket::WsUrlError;
use mcp::{is_plan_of, McpPlan};
use system::SystemAction;
use vstd::prelude::*;

pub mod client;
pub mod mcp;
pub mod system;
pub mod util;

verus! {

/// The commands that there are: on the path type `P`, and with what the commands
/// about spans, about debugging and about a dev server take as `S`, `G` and `D`.
#[derive(Debug)]
pub enum Command<P, S, G, D> {
    /// A cli client to interact with a running otel-worker server.
    Client(client::Args<S>),
    /// Debug related commands.
    Debug(G),
    /// Start a local dev server.
    Dev(D),
    /// System related commands.
    System(system::Args<P>),
    /// Start a MCP server that will interact with a upstream otel-worker.
    Mcp(mcp::Args),
}

/// otel-worker - store and query traces
#[derive(Debug)]
pub struct Args<P, S, G, D> {
    pub command: Command<P, S, G, D>,
    /// Enable tracing
    pub enable_tracing: bool,
    /// Endpoint of the OTLP collector.
    pub otlp_endpoint: String,
    /// Change the otel-worker directory.
    pub otel_worker_directory: Option<P>,
    /// Changes the log level to DEBUG for the otel-worker components and sets
    /// the log level to info for all other components.
    pub debug: bool,
}

/// What a command comes to.
#[derive(Debug)]
pub enum Action<P, S, G, D> {
    Client(ClientAction<S>),
    /// The commands about debugging take over.
    Debug(G),
    /// The dev server takes over.
    Dev(D),
    System(SystemAction<P>),
    /// An MCP server, or why there is none.
    Mcp(Result<McpPlan, WsUrlError>),
}

/// What a command comes to.
pub fn handle_command<P, S, G, D>(args: Args<P, S, G, D>) -> (action: Action<P, S, G, D>)
    ensures
        match args.command {
            Command::Client(args) => {
                action matches Action::Client(action) && client::is_action_of(action, args)
            },
            Command::Debug(args) => action == Action::<P, S, G, D>::Debug(args),
            Command::Dev(args) => action == Action::<P, S, G, D>::Dev(args),
            Command::System(args) => {
                action matches Action::System(action) && system::is_action_of(action, args)
            },
            Command::Mcp(args) => action matches Action::Mcp(plan) && is_plan_of(plan, args),
        },
        (action matches Action::Client(ClientAction::Traces(Ok(request)))
            && request.call is TraceDelete) <==> (args.command matches Command::Client(client)
            && client.command matches client::Command::Traces(traces) && traces.command is Delete),
        (action matches Action::System(SystemAction::Database(_))) <==> (
        args.command matches Command::System(system) && system.command is Database),
{
    match args.command {
        Command::Client(args) => Action::Client(client::handle_command(args)),
        Command::Debug(args) => Action::Debug(args),
        Command::Dev(args) => Action::Dev(args),
        Command::System(args) => Action::System(system::handle_command(args)),
        Command::Mcp(args) => Action::Mcp(mcp::handle_command(args)),
    }
}

} // verus!
