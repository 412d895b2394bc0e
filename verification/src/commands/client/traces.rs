//! Commands about the traces that an otel-worker has stored.
use crate::api::ApiCall;
use crate::commands::util::{parse_rfc3339, rfc3339, Timestamp};
use crate::text::join;
use vstd::prelude::*;

verus! {

/// Get a single trace.
#[derive(Debug)]
pub struct GetArgs {
    /// TraceID - hex encoded
    pub trace_id: String,
    pub base_url: String,
    pub auth_token: Option<String>,
}

/// List all traces.
#[derive(Debug)]
pub struct ListArgs {
    /// Optional limit to the amount of traces to be returned
    pub limit: Option<u32>,
    /// Optional timestamp from which traces that occurred before it are returned.
    /// Must be in RFC3339 format
    pub time: Option<String>,
    pub base_url: String,
    pub auth_token: Option<String>,
}

/// Delete all spans for a single trace.
#[derive(Debug)]
pub struct DeleteArgs {
    /// TraceID - hex encoded
    pub trace_id: String,
    pub base_url: String,
    pub auth_token: Option<String>,
}

/// Commands about traces.
#[derive(Debug)]
pub enum Command {
    /// Get a single trace
    Get(GetArgs),
    /// List all traces
    List(ListArgs),
    /// Delete all spans for a single trace
    Delete(DeleteArgs),
}

#[derive(Debug)]
pub struct Args {
    pub command: Command,
}

/// A call of the API, with where it goes and the token that goes with it.
#[derive(Debug)]
pub struct ApiRequest {
    pub base_url: String,
    pub bearer_token: Option<String>,
    pub call: ApiCall,
    /// Whether what comes back is printed.
    pub print: bool,
}

/// Why a command makes no call.
#[derive(Debug)]
pub enum CommandError {
    /// The time is not in the notation that it has to be in, for this reason.
    InvalidTime(String),
}

impl CommandError {
    /// The error in words.
    pub open spec fn text(self) -> Seq<char> {
        match self {
            CommandError::InvalidTime(cause) => {
                "failed to parse time argument as rfc3339: "@ + cause@
            },
        }
    }

    /// The error in words.
    pub fn message(&self) -> (message: String)
        ensures
            message@ == self.text(),
    {
        match self {
            CommandError::InvalidTime(cause) => join(
                "failed to parse time argument as rfc3339: ",
                cause.as_str(),
            ),
        }
    }
}

/// The call that gets a trace.
pub fn handle_get(args: GetArgs) -> (request: ApiRequest)
    ensures
        request == (ApiRequest {
            base_url: args.base_url,
            bearer_token: args.auth_token,
            call: ApiCall::TraceGet { trace_id: args.trace_id },
            print: true,
        }),
{
    ApiRequest {
        base_url: args.base_url,
        bearer_token: args.auth_token,
        call: ApiCall::TraceGet { trace_id: args.trace_id },
        print: true,
    }
}

/// What the time that a list is asked for comes to: no time where none is given,
/// and else the point in time, or what is wrong with it.
pub open spec fn list_time(time: Option<String>) -> Result<Option<Timestamp>, Seq<char>> {
    match time {
        None => Ok(None),
        Some(text) => match rfc3339(text@) {
            Ok(timestamp) => Ok(Some(timestamp)),
            Err(cause) => Err(cause),
        },
    }
}

/// The call that lists the traces from before `time`, where one is given.
pub fn list_request(args: ListArgs, time: Option<Timestamp>) -> (request: ApiRequest)
    ensures
        request == (ApiRequest {
            base_url: args.base_url,
            bearer_token: args.auth_token,
            call: ApiCall::TraceList { limit: args.limit, time },
            print: true,
        }),
{
    ApiRequest {
        base_url: args.base_url,
        bearer_token: args.auth_token,
        call: ApiCall::TraceList { limit: args.limit, time },
        print: true,
    }
}

/// The call that lists traces. No call is made where the time is not in the
/// notation of RFC 3339.
pub fn handle_list(args: ListArgs) -> (request: Result<ApiRequest, CommandError>)
    ensures
        match list_time(args.time) {
            Ok(time) => request == Ok::<ApiRequest, CommandError>(
                (ApiRequest {
                    base_url: args.base_url,
                    bearer_token: args.auth_token,
                    call: ApiCall::TraceList { limit: args.limit, time },
                    print: true,
                }),
            ),
            Err(expected) => {
                request matches Err(CommandError::InvalidTime(cause)) && cause@ == expected
            },
        },
        request is Err <==> (args.time matches Some(text) && rfc3339(text@) is Err),
        request matches Ok(request) ==> {
            &&& request.call matches ApiCall::TraceList { limit, time }
            &&& limit == args.limit
            &&& args.time is None ==> time is None
            &&& args.time matches Some(text) ==> (rfc3339(text@) matches Ok(wanted) && time == Some(
                wanted,
            ))
        },
{
    let time = match &args.time {
        None => None,
        Some(text) => match parse_rfc3339(text.as_str()) {
            Ok(timestamp) => Some(timestamp),
            Err(cause) => {
                return Err(CommandError::InvalidTime(cause));
            },
        },
    };
    Ok(list_request(args, time))
}

/// The call that deletes a trace.
pub fn handle_delete(args: DeleteArgs) -> (request: ApiRequest)
    ensures
        request == (ApiRequest {
            base_url: args.base_url,
            bearer_token: args.auth_token,
            call: ApiCall::TraceDelete { trace_id: args.trace_id },
            print: false,
        }),
{
    ApiRequest {
        base_url: args.base_url,
        bearer_token: args.auth_token,
        call: ApiCall::TraceDelete { trace_id: args.trace_id },
        print: false,
    }
}

/// The request is the call that a command needs made, or the reason that there
/// is none.
pub open spec fn is_request_of(request: Result<ApiRequest, CommandError>, args: Args) -> bool {
    match args.command {
        Command::Get(args) => request == Ok::<ApiRequest, CommandError>(
            ApiRequest {
                base_url: args.base_url,
                bearer_token: args.auth_token,
                call: ApiCall::TraceGet { trace_id: args.trace_id },
                print: true,
            },
        ),
        Command::List(args) => match list_time(args.time) {
            Ok(time) => request == Ok::<ApiRequest, CommandError>(
                ApiRequest {
                    base_url: args.base_url,
                    bearer_token: args.auth_token,
                    call: ApiCall::TraceList { limit: args.limit, time },
                    print: true,
                },
            ),
            Err(expected) => {
                request matches Err(CommandError::InvalidTime(cause)) && cause@ == expected
            },
        },
        Command::Delete(args) => request == Ok::<ApiRequest, CommandError>(
            ApiRequest {
                base_url: args.base_url,
                bearer_token: args.auth_token,
                call: ApiCall::TraceDelete { trace_id: args.trace_id },
                print: false,
            },
        ),
    }
}

/// The call that a command needs made.
pub fn handle_command(args: Args) -> (request: Result<ApiRequest, CommandError>)
    ensures
        is_request_of(request, args),
{
    match args.command {
        Command::Get(args) => Ok(handle_get(args)),
        Command::List(args) => handle_list(args),
        Command::Delete(args) => Ok(handle_delete(args)),
    }
}

/// A time that is given and can be read is the time of the call, one that cannot be
/// read is an error with what the reader said, and a list is asked for without a
/// time only where none was given.
pub proof fn law_given_time_is_the_time_of_the_call(time: Option<String>)
    ensures
        time is None ==> list_time(time) == Ok::<Option<Timestamp>, Seq<char>>(None),
        time matches Some(text) ==> (rfc3339(text@) matches Ok(timestamp) ==> list_time(time)
            == Ok::<Option<Timestamp>, Seq<char>>(Some(timestamp))),
        time matches Some(text) ==> (rfc3339(text@) matches Err(cause) ==> list_time(time) == Err::<
            Option<Timestamp>,
            Seq<char>,
        >(cause)),
        list_time(time) == Ok::<Option<Timestamp>, Seq<char>>(None) ==> time is None,
{
}

/// Getting a trace asks the otel-worker that was named, with the token that was
/// given, for that trace, and prints it.
pub proof fn law_get_asks_for_its_trace(
    request: Result<ApiRequest, CommandError>,
    args: Args,
    get: GetArgs,
)
    requires
        args.command == Command::Get(get),
        is_request_of(request, args),
    ensures
        request matches Ok(request) && {
            &&& request.call matches ApiCall::TraceGet { trace_id } && trace_id@ == get.trace_id@
            &&& request.base_url@ == get.base_url@
            &&& request.bearer_token == get.auth_token
            &&& request.print
        },
{
}

/// Deleting a trace asks the otel-worker that was named, with the token that was
/// given, to delete that trace, and prints nothing.
pub proof fn law_delete_deletes_its_trace(
    request: Result<ApiRequest, CommandError>,
    args: Args,
    delete: DeleteArgs,
)
    requires
        args.command == Command::Delete(delete),
        is_request_of(request, args),
    ensures
        request matches Ok(request) && {
            &&& request.call matches ApiCall::TraceDelete { trace_id } && trace_id@
                == delete.trace_id@
            &&& request.base_url@ == delete.base_url@
            &&& request.bearer_token == delete.auth_token
            &&& !request.print
        },
{
}

/// Listing traces asks the otel-worker that was named, with the token that was
/// given, for as many traces as were wanted and for those of the time that was
/// wanted, and prints them. Where the time cannot be read it asks for nothing.
pub proof fn law_list_asks_for_what_is_wanted(
    request: Result<ApiRequest, CommandError>,
    args: Args,
    list: ListArgs,
)
    requires
        args.command == Command::List(list),
        is_request_of(request, args),
    ensures
        request matches Ok(request) ==> {
            &&& request.base_url@ == list.base_url@
            &&& request.bearer_token == list.auth_token
            &&& request.print
            &&& request.call matches ApiCall::TraceList { limit, time } && {
                &&& limit == list.limit
                &&& match list.time {
                    None => time is None,
                    Some(text) => rfc3339(text@) matches Ok(wanted) && time == Some(wanted),
                }
            }
        },
        request matches Err(CommandError::InvalidTime(cause)) ==> {
            &&& list.time matches Some(text)
            &&& rfc3339(text@) matches Err(expected)
            &&& cause@ == expected
        },
{
}

/// Which call is made is told by the command alone: a trace is deleted if and only
/// if that was the command.
pub proof fn law_commands_keep_apart(request: Result<ApiRequest, CommandError>, args: Args)
    requires
        is_request_of(request, args),
    ensures
        args.command is Get <==> (request matches Ok(request) && request.call is TraceGet),
        args.command is Delete <==> (request matches Ok(request) && request.call is TraceDelete),
        request is Err ==> args.command is List,
        request matches Ok(request) ==> request.call !is SpanList && (request.print
            <==> args.command !is Delete),
{
}

/// An error says what was attempted, and then what went wrong.
pub proof fn law_error_names_its_cause(error: CommandError, cause: String)
    requires
        error == CommandError::InvalidTime(cause),
    ensures
        error.text() == "failed to parse time argument as rfc3339: "@ + cause@,
{
}

} // verus!
