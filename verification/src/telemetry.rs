//! What the command line tool logs, and where it sends its own traces.
use vstd::prelude::*;

verus! {

/// Log directives that uses info for all otel_worker related crates and error
/// for everything else.
pub const DEFAULT_LOG_DIRECTIVES: &'static str = "otel_worker=info,error";

/// Log directives that uses debug for all otel_worker related crates and info
/// for everything else.
pub const DEBUG_LOG_DIRECTIVES: &'static str = "otel_worker=debug,info";

/// What is logged: what the environment asks for, where it does, and else more or
/// less, by whether debugging is asked for.
pub fn log_directives(rust_log: Option<String>, debug: bool) -> (directives: String)
    ensures
        directives@ == match rust_log {
            Some(asked) => asked@,
            None => if debug {
                DEBUG_LOG_DIRECTIVES@
            } else {
                DEFAULT_LOG_DIRECTIVES@
            },
        },
        rust_log is None && debug ==> directives@ == "otel_worker=debug,info"@,
        rust_log is None && !debug ==> directives@ == "otel_worker=info,error"@,
{
    match rust_log {
        Some(asked) => asked,
        None => if debug {
            DEBUG_LOG_DIRECTIVES.to_owned()
        } else {
            DEFAULT_LOG_DIRECTIVES.to_owned()
        },
    }
}

/// Where traces are sent, and under which name.
#[derive(Debug)]
pub struct TraceExport {
    pub endpoint: String,
    pub service_name: String,
}

/// Where the traces of the tool itself are sent: nowhere unless tracing is
/// enabled.
pub fn trace_export(enable_tracing: bool, otlp_endpoint: String) -> (export: Option<TraceExport>)
    ensures
        export is Some <==> enable_tracing,
        export matches Some(export) ==> export.endpoint == otlp_endpoint
            && export.service_name@ == "otel-worker-cli"@,
{
    if enable_tracing {
        let service_name = "otel-worker-cli".to_owned();
        Some(TraceExport { endpoint: otlp_endpoint, service_name })
    } else {
        None
    }
}

} // verus!
