//! Commands that talk to a running otel-worker.
use crate::api::ApiCall;
use crate::commands::util::rfc3339;
use traces::{is_request_of, ApiRequest, CommandError};
use vstd::prelude::*;

pub mod traces;

verus! {

/// Commands that a running otel-worker is asked for. What the commands about
/// spans take is up to them.
#[derive(Debug)]
pub enum Command<S> {
    /// Interact with stored spans
    Spans(S),
    /// Interact with stored traces
    Traces(traces::Args),
}

#[derive(Debug)]
pub struct Args<S> {
    pub command: Command<S>,
    /// Base url of the otel-worker server.
    pub base_url: String,
    /// Bearer token for authentication.
    pub auth_token: Option<String>,
}

/// What a command comes to.
#[derive(Debug)]
pub enum ClientAction<S> {
    /// The commands about spans take over, with this token.
    Spans { args: S, auth_token: Option<String> },
    /// A call of the API, or why there is none.
    Traces(Result<ApiRequest, CommandError>),
}

/// The action is what the command comes to.
pub open spec fn is_action_of<S>(action: ClientAction<S>, args: Args<S>) -> bool {
    match args.command {
        Command::Spans(spans) => action == (ClientAction::Spans {
            args: spans,
            auth_token: args.auth_token,
        }),
        Command::Traces(traces) => {
            action matches ClientAction::Traces(request) && is_request_of(request, traces)
        },
    }
}

/// What a command comes to.
pub fn handle_command<S>(args: Args<S>) -> (action: ClientAction<S>)
    ensures
        is_action_of(action, args),
        args.command matches Command::Traces(traces) ==> (action matches ClientAction::Traces(
            request,
        ) && is_request_of(request, traces)),
        (action matches ClientAction::Traces(Ok(request)) && request.call is TraceDelete) <==> (
        args.command matches Command::Traces(traces) && traces.command is Delete),
        (action matches ClientAction::Traces(Ok(request)) && request.call is TraceGet) <==> (
        args.command matches Command::Traces(traces) && traces.command is Get),
{
    match args.command {
        Command::Spans(spans) => ClientAction::Spans { args: spans, auth_token: args.auth_token },
        Command::Traces(traces) => ClientAction::Traces(traces::handle_command(traces)),
    }
}

/// A command about traces comes to the call of that very command, with its own
/// trace, address and token.
pub proof fn law_traces_commands_come_to_their_own_call<S>(
    action: ClientAction<S>,
    args: Args<S>,
    traces: traces::Args,
)
    requires
        args.command == Command::<S>::Traces(traces),
        is_action_of(action, args),
    ensures
        action matches ClientAction::Traces(request) && {
            &&& traces.command matches traces::Command::Get(get) ==> {
                &&& request matches Ok(request)
                &&& request.call matches ApiCall::TraceGet { trace_id }
                &&& trace_id@ == get.trace_id@
                &&& request.base_url@ == get.base_url@
                &&& request.bearer_token == get.auth_token
                &&& request.print
            }
            &&& traces.command matches traces::Command::Delete(delete) ==> {
                &&& request matches Ok(request)
                &&& request.call matches ApiCall::TraceDelete { trace_id }
                &&& trace_id@ == delete.trace_id@
                &&& request.base_url@ == delete.base_url@
                &&& request.bearer_token == delete.auth_token
                &&& !request.print
            }
            &&& traces.command matches traces::Command::List(list) ==> {
                request matches Ok(request) ==> {
                    &&& request.call matches ApiCall::TraceList { limit, time }
                    &&& limit == list.limit
                    &&& list.time is None ==> time is None
                    &&& list.time matches Some(text) ==> (rfc3339(text@) matches Ok(wanted) && time
                        == Some(wanted))
                    &&& request.base_url@ == list.base_url@
                    &&& request.bearer_token == list.auth_token
                    &&& request.print
                }
            }
            &&& request is Err ==> (traces.command matches traces::Command::List(list)
                && list.time matches Some(text) && rfc3339(text@) is Err)
        },
{
}

/// A command about spans is handed on with its own arguments and with the token.
pub proof fn law_spans_commands_are_handed_on<S>(action: ClientAction<S>, args: Args<S>, spans: S)
    requires
        args.command == Command::Spans(spans),
        is_action_of(action, args),
    ensures
        action matches ClientAction::Spans { args: given, auth_token } && given == spans
            && auth_token == args.auth_token,
{
}

} // verus!
