use otel_worker::telemetry::{
    log_directives, trace_export, DEBUG_LOG_DIRECTIVES, DEFAULT_LOG_DIRECTIVES,
};

#[test]
fn the_environment_decides_what_is_logged() {
    assert_eq!(log_directives(Some("trace".to_string()), true), "trace");
    assert_eq!(log_directives(Some("trace".to_string()), false), "trace");
    assert_eq!(log_directives(Some(String::new()), true), "");
}

#[test]
fn without_it_debugging_does() {
    assert_eq!(log_directives(None, false), "otel_worker=info,error");
    assert_eq!(log_directives(None, true), "otel_worker=debug,info");
    assert_eq!(DEFAULT_LOG_DIRECTIVES, "otel_worker=info,error");
    assert_eq!(DEBUG_LOG_DIRECTIVES, "otel_worker=debug,info");
}

#[test]
fn traces_are_sent_only_where_that_is_enabled() {
    let export = trace_export(true, "http://localhost:4317".to_string()).unwrap();
    assert_eq!(export.endpoint, "http://localhost:4317");
    assert_eq!(export.service_name, "otel-worker-cli");
    assert!(trace_export(false, "http://localhost:4317".to_string()).is_none());
}
