//! The requests that reach a worker, and which of them need a token.
use crate::text::str_eq;
use vstd::prelude::*;

verus! {

/// The path of the websocket.
pub const WEBSOCKET_PATH: &'static str = "/api/ws";

/// Who handles a request.
#[derive(Debug, Clone, Copy, PartialEq, Eq, Structural)]
pub enum Route {
    /// The websocket, which a client connects to.
    WebSocket,
    /// The API.
    Api,
    /// Nobody: there is nothing at the path.
    Nobody,
}

/// Who handles a request for this path, where the API has something at it, or
/// has not.
pub open spec fn route_of(path: Seq<char>, in_api: bool) -> Route {
    if path == WEBSOCKET_PATH@ {
        Route::WebSocket
    } else if in_api {
        Route::Api
    } else {
        Route::Nobody
    }
}

impl Route {
    /// Whether a request has to bring the token.
    pub open spec fn guarded(self) -> bool {
        self == Route::Api
    }

    /// Whether a request has to bring the token: all that reach the API do.
    pub fn requires_token(&self) -> (guarded: bool)
        ensures
            guarded == self.guarded(),
    {
        match self {
            Route::WebSocket => false,
            Route::Api => true,
            Route::Nobody => false,
        }
    }
}

/// Who handles a request for this path: the websocket has one path, whatever the
/// API has at it, and the API has its own.
pub fn route(path: &str, in_api: bool) -> (route: Route)
    ensures
        route == route_of(path@, in_api),
{
    if str_eq(path, WEBSOCKET_PATH) {
        Route::WebSocket
    } else if in_api {
        Route::Api
    } else {
        Route::Nobody
    }
}

/// Everything of the API needs the token, and nothing else does: what is open to
/// a request without it is the websocket, and paths with nothing at them.
pub proof fn law_the_api_is_guarded(path: Seq<char>, in_api: bool)
    ensures
        route_of(path, in_api).guarded() <==> in_api && path != WEBSOCKET_PATH@,
{
}

/// The websocket is at one path, whatever the API has there, and everything else
/// that the API has is the API's.
pub proof fn law_requests_go_where_their_path_says(path: Seq<char>, in_api: bool)
    ensures
        route_of(path, in_api) == Route::WebSocket <==> path == "/api/ws"@,
        route_of(path, in_api) == Route::Api <==> (path != "/api/ws"@ && in_api),
        route_of(path, in_api) == Route::Nobody <==> (path != "/api/ws"@ && !in_api),
        Route::Api.guarded(),
        !Route::WebSocket.guarded(),
        !Route::Nobody.guarded(),
{
}

} // verus!
