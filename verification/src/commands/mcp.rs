//! The MCP server: lets a language model read the traces of an otel-worker.
use vstd::prelude::*;
use websocket::{get_ws_url, is_ws_url, uri_of_parts, url_parts, WsUrlError};

pub mod dispatch;
pub mod error;
pub mod http_sse;
pub mod ids;
pub mod messages;
pub mod resources;
pub mod session;
pub mod sse;
pub mod stdio;
pub mod tools;
pub mod websocket;

verus! {

/// How the MCP server and its clients talk.
#[derive(Debug, Clone, Copy, PartialEq, Eq, Structural)]
pub enum Transport {
    Stdio,
    Sse,
}

impl Default for Transport {
    fn default() -> (transport: Transport)
        ensures
            transport == Transport::Stdio,
    {
        Transport::Stdio
    }
}

#[derive(Debug)]
pub struct Args {
    /// The URL of the otel-worker instance
    pub otel_worker_url: String,
    /// Optional authentication token for the otel-worker
    pub otel_worker_token: Option<String>,
    /// The type of transport used to communicate between this MCP server and
    /// the MCP client.
    pub transport: Transport,
    /// The address that the MCP server will listen on. Only available with SSE
    /// transport
    pub listen_address: String,
}

/// Where clients are served.
#[derive(Debug)]
pub enum Serve {
    /// On standard input and output.
    Stdio,
    /// On this address.
    Sse(String),
}

/// What the MCP server connects to, and where it serves its clients.
#[derive(Debug)]
pub struct McpPlan {
    /// The websocket on which the otel-worker tells what happens to it.
    pub websocket_url: String,
    pub base_url: String,
    pub bearer_token: Option<String>,
    pub serve: Serve,
}

/// The plan is what the arguments ask for, or why it cannot be done: nothing is
/// served without a websocket to the otel-worker.
pub open spec fn is_plan_of(plan: Result<McpPlan, WsUrlError>, args: Args) -> bool {
    match url_parts(args.otel_worker_url@) {
        None => plan matches Err(WsUrlError::InvalidUrl),
        Some((scheme, authority)) => match plan {
            Err(error) => is_ws_url(Err(error), scheme, authority),
            Ok(plan) => {
                &&& is_ws_url(Ok(plan.websocket_url), scheme, authority)
                &&& plan.base_url == args.otel_worker_url
                &&& plan.bearer_token == args.otel_worker_token
                &&& match args.transport {
                    Transport::Stdio => plan.serve is Stdio,
                    Transport::Sse => plan.serve == Serve::Sse(args.listen_address),
                }
            },
        },
    }
}

/// What an MCP server with these arguments connects to, and where it serves.
pub fn handle_command(args: Args) -> (plan: Result<McpPlan, WsUrlError>)
    ensures
        is_plan_of(plan, args),
        plan matches Ok(plan) ==> {
            &&& plan.base_url == args.otel_worker_url
            &&& plan.bearer_token == args.otel_worker_token
            &&& plan.serve is Stdio <==> args.transport == Transport::Stdio
        },
{
    match get_ws_url(args.otel_worker_url.as_str()) {
        Ok(websocket_url) => {
            let serve = match args.transport {
                Transport::Stdio => Serve::Stdio,
                Transport::Sse => Serve::Sse(args.listen_address),
            };
            Ok(
                McpPlan {
                    websocket_url,
                    base_url: args.otel_worker_url,
                    bearer_token: args.otel_worker_token,
                    serve,
                },
            )
        },
        Err(error) => Err(error),
    }
}

/// Whatever the transport, the server asks the otel-worker that was named, with the
/// token that was given, and listens to the websocket of that otel-worker.
pub proof fn law_plan_keeps_address_and_token(
    plan: McpPlan,
    args: Args,
    scheme: Seq<char>,
    authority: Seq<char>,
)
    requires
        is_plan_of(Ok(plan), args),
    ensures
        plan.base_url@ == args.otel_worker_url@,
        plan.bearer_token == args.otel_worker_token,
        url_parts(args.otel_worker_url@) is Some,
        url_parts(args.otel_worker_url@) == Some((scheme, authority)) ==> {
            ||| scheme == "http"@ && plan.websocket_url@ == "ws"@ + "://"@ + authority + "/api/ws"@
            ||| scheme == "https"@ && plan.websocket_url@ == "wss"@ + "://"@ + authority
                + "/api/ws"@
        },
{
}

/// A server serves by the transport that was asked for and no other, and over
/// server sent events on the address that was asked for.
pub proof fn law_plan_serves_by_the_transport_asked_for(plan: McpPlan, args: Args)
    requires
        is_plan_of(Ok(plan), args),
    ensures
        args.transport == Transport::Stdio <==> plan.serve is Stdio,
        args.transport == Transport::Sse ==> (plan.serve matches Serve::Sse(address) && address@
            == args.listen_address@),
{
}

/// Where there is no server, the address of the otel-worker is at fault, and said
/// to be: it is no URL, or its scheme, which is named, has no websocket scheme that
/// goes with it, or no websocket can be written with it.
pub proof fn law_missing_plan_says_what_is_at_fault(
    error: WsUrlError,
    args: Args,
    scheme: Seq<char>,
    authority: Seq<char>,
)
    requires
        is_plan_of(Err(error), args),
    ensures
        error is InvalidUrl <==> url_parts(args.otel_worker_url@) is None,
        url_parts(args.otel_worker_url@) == Some((scheme, authority)) ==> {
            &&& scheme == "http"@ ==> {
                &&& error is InvalidUri
                &&& uri_of_parts("ws"@, authority, "/api/ws"@) is None
            }
            &&& scheme == "https"@ ==> {
                &&& error is InvalidUri
                &&& uri_of_parts("wss"@, authority, "/api/ws"@) is None
            }
            &&& scheme != "http"@ && scheme != "https"@ ==> (
            error matches WsUrlError::UnsupportedScheme(text) && text@ == scheme)
        },
{
    reveal_strlit("http");
    reveal_strlit("https");
    assert("http"@.len() != "https"@.len());
}

/// There is a server wherever the otel-worker has a websocket that can be named:
/// two sets of arguments for one otel-worker both get one, or neither does.
pub proof fn law_only_the_address_can_be_at_fault(
    plan: Result<McpPlan, WsUrlError>,
    args: Args,
    other_plan: Result<McpPlan, WsUrlError>,
    other_args: Args,
)
    requires
        is_plan_of(plan, args),
        is_plan_of(other_plan, other_args),
        args.otel_worker_url@ == other_args.otel_worker_url@,
    ensures
        plan is Ok <==> other_plan is Ok,
        url_parts(args.otel_worker_url@) is None ==> plan matches Err(WsUrlError::InvalidUrl),
{
}

} // verus!
