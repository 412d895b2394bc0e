use otel_worker::worker::{route, Route, WEBSOCKET_PATH};

#[test]
fn the_websocket_has_its_path_and_needs_no_token() {
    assert_eq!(WEBSOCKET_PATH, "/api/ws");
    for in_api in [true, false] {
        assert_eq!(route("/api/ws", in_api), Route::WebSocket);
    }
    assert!(!Route::WebSocket.requires_token());
}

#[test]
fn everything_of_the_api_needs_the_token() {
    for path in ["/v1/traces", "/api/ws/", "/api/WS", "/"] {
        assert_eq!(route(path, true), Route::Api);
        assert!(route(path, true).requires_token());
    }
}

#[test]
fn where_there_is_nothing_no_token_is_needed() {
    assert_eq!(route("/nothing", false), Route::Nobody);
    assert!(!route("/nothing", false).requires_token());
}
