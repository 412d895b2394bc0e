//! The websocket on which an otel-worker tells what happens to it.
use super::messages::{resource_list_changed, NotificationFromServer};
use crate::text::{join, str_eq};
use crate::worker::WEBSOCKET_PATH;
use vstd::prelude::*;

verus! {

/// Why building a URI failed, carried but never looked at.
#[verifier::external_type_specification]
#[verifier::external_body]
pub struct ExHttpError(http::Error);

/// Why a text is no URL, carried but never looked at.
#[verifier::external_type_specification]
#[verifier::external_body]
pub struct ExUrlParseError(url::ParseError);

/// Why there is no websocket URI to a URL.
#[derive(Debug)]
pub enum WsUrlError {
    /// The text is no URL.
    InvalidUrl,
    /// The URL has a scheme that no websocket goes with.
    UnsupportedScheme(String),
    /// The parts do not make a URI.
    InvalidUri,
}

impl WsUrlError {
    /// The error in words.
    pub open spec fn text(self) -> Seq<char> {
        match self {
            WsUrlError::InvalidUrl => "invalid otel-worker URL"@,
            WsUrlError::UnsupportedScheme(scheme) => "unsupported scheme: "@ + scheme@,
            WsUrlError::InvalidUri => "unable to build otel-worker websocket URI"@,
        }
    }

    /// The error in words.
    pub fn message(&self) -> (message: String)
        ensures
            message@ == self.text(),
    {
        match self {
            WsUrlError::InvalidUrl => "invalid otel-worker URL".to_owned(),
            WsUrlError::UnsupportedScheme(scheme) => join("unsupported scheme: ", scheme.as_str()),
            WsUrlError::InvalidUri => "unable to build otel-worker websocket URI".to_owned(),
        }
    }
}

/// A letter or a digit of ASCII.
pub open spec fn is_alphanumeric(c: char) -> bool {
    ||| '0' <= c <= '9'
    ||| 'a' <= c <= 'z'
    ||| 'A' <= c <= 'Z'
}

/// One to sixty-four letters and digits.
pub open spec fn is_plain_scheme(scheme: Seq<char>) -> bool {
    &&& 0 < scheme.len() <= 64
    &&& forall|i: int| 0 <= i < scheme.len() ==> is_alphanumeric(#[trigger] scheme[i])
}

/// How many colons a text has.
pub open spec fn colons(text: Seq<char>) -> nat {
    text.filter(|c: char| c == ':').len()
}

/// A host made of letters, digits, dots and hyphens, maybe with a port.
pub open spec fn is_named_host(host: Seq<char>) -> bool {
    &&& host.len() > 0
    &&& forall|i: int|
        0 <= i < host.len() ==> is_alphanumeric(#[trigger] host[i]) || host[i] == '.'
            || host[i] == '-' || host[i] == ':'
    &&& forall|i: int, j: int|
        0 <= i < j < host.len() ==> !(#[trigger] host[i] == ':' && #[trigger] host[j] == ':')
}

/// A host that is an IPv6 address in brackets, with what stands behind it.
pub open spec fn bracketed(address: Seq<char>, port: Seq<char>) -> Seq<char> {
    seq!['['] + address + seq![']'] + port
}

/// A host that is an IPv6 address in brackets, maybe with a port.
pub open spec fn is_bracketed_host(host: Seq<char>) -> bool {
    exists|address: Seq<char>, port: Seq<char>|
        {
            &&& host == #[trigger] bracketed(address, port)
            &&& forall|i: int|
                0 <= i < address.len() ==> is_alphanumeric(#[trigger] address[i]) || address[i]
                    == ':' || address[i] == '.'
            &&& colons(address) <= 8
            &&& port.len() > 0 ==> port[0] == ':'
            &&& forall|i: int| 0 < i < port.len() ==> '0' <= #[trigger] port[i] <= '9'
        }
}

/// A host with who asks for it in front.
pub open spec fn with_user(user: Seq<char>, host: Seq<char>) -> Seq<char> {
    user + seq!['@'] + host
}

/// Who asks: letters, digits, some signs and percent signs, with up to eight
/// colons.
pub open spec fn is_user(user: Seq<char>) -> bool {
    &&& forall|i: int|
        0 <= i < user.len() ==> is_alphanumeric(#[trigger] user[i]) || user[i] == '-' || user[i]
            == '.' || user[i] == '_' || user[i] == '~' || user[i] == '%' || user[i] == ':'
    &&& colons(user) <= 8
}

/// A host by name or address, maybe with a port, and maybe with who asks for it.
pub open spec fn is_plain_authority(authority: Seq<char>) -> bool {
    ||| is_named_host(authority)
    ||| is_bracketed_host(authority)
    ||| exists|user: Seq<char>, host: Seq<char>|
        {
            &&& authority == #[trigger] with_user(user, host)
            &&& is_user(user)
            &&& is_named_host(host) || is_bracketed_host(host)
        }
}

/// A path of letters, digits and slashes that starts with a slash.
pub open spec fn is_plain_path(path: Seq<char>) -> bool {
    &&& 0 < path.len() < 65534
    &&& path[0] == '/'
    &&& forall|i: int|
        0 <= i < path.len() ==> is_alphanumeric(#[trigger] path[i]) || path[i] == '/'
}

/// The scheme and the authority of a URL: the ones that it has once it is
/// parsed, and `None` for a text that is no URL.
pub uninterp spec fn url_parts(text: Seq<char>) -> Option<(Seq<char>, Seq<char>)>;

/// The URI that three parts make, and `None` where they make none.
pub uninterp spec fn uri_of_parts(
    scheme: Seq<char>,
    authority: Seq<char>,
    path: Seq<char>,
) -> Option<Seq<char>>;

/// `url::Url::parse`, and of what it returns `scheme` and `authority`. All three
/// are named by [`url_parts`].
#[verifier::external_body]
pub(crate) fn split_url(text: &str) -> (parts: Result<(String, String), url::ParseError>)
    ensures
        match parts {
            Ok(parts) => url_parts(text@) == Some((parts.0@, parts.1@)),
            Err(_) => url_parts(text@) is None,
        },
{
    let url = url::Url::parse(text)?;
    Ok((url.scheme().to_string(), url.authority().to_string()))
}

/// `http::Uri::builder` with a scheme, an authority and a path, built and
/// written out by `to_string`, as [`uri_of_parts`] names it. A plain scheme and
/// a plain path are taken over as they are, and so is the authority that goes
/// with them; with a plain authority the URI is built.
#[verifier::external_body]
pub(crate) fn build_uri(scheme: &str, authority: &str, path: &str) -> (uri: Result<
    String,
    http::Error,
>)
    ensures
        match uri {
            Ok(uri) => uri_of_parts(scheme@, authority@, path@) == Some(uri@),
            Err(_) => uri_of_parts(scheme@, authority@, path@) is None,
        },
        is_plain_scheme(scheme@) && is_plain_path(path@) ==> (uri matches Ok(uri) ==> uri@
            == scheme@ + "://"@ + authority@ + path@),
        is_plain_scheme(scheme@) && is_plain_path(path@) && is_plain_authority(authority@)
            ==> uri is Ok,
{
    let builder = http::Uri::builder().scheme(scheme).authority(authority);
    Ok(builder.path_and_query(path).build()?.to_string())
}

/// The websocket scheme that goes with the scheme of a URL.
pub open spec fn ws_scheme(scheme: Seq<char>) -> Option<Seq<char>> {
    if scheme == "http"@ {
        Some("ws"@)
    } else if scheme == "https"@ {
        Some("wss"@)
    } else {
        None
    }
}

/// The websocket URI to a scheme and an authority, or why there is none. With a
/// plain authority only the scheme can be at fault.
pub open spec fn is_ws_url(
    uri: Result<String, WsUrlError>,
    scheme: Seq<char>,
    authority: Seq<char>,
) -> bool {
    match ws_scheme(scheme) {
        None => uri matches Err(WsUrlError::UnsupportedScheme(text)) && text@ == scheme,
        Some(ws) => match uri_of_parts(ws, authority, WEBSOCKET_PATH@) {
            Some(expected) => {
                &&& uri matches Ok(uri)
                &&& uri@ == expected
                &&& uri@ == ws + "://"@ + authority + WEBSOCKET_PATH@
            },
            None => uri matches Err(WsUrlError::InvalidUri) && !is_plain_authority(authority),
        },
    }
}

/// The websocket URI to the scheme and the authority of a URL: the websocket
/// scheme that goes with the scheme, the same authority, and a fixed path.
pub fn websocket_uri(scheme: String, authority: &str) -> (uri: Result<String, WsUrlError>)
    ensures
        is_ws_url(uri, scheme@, authority@),
{
    let secure = if str_eq(scheme.as_str(), "http") {
        false
    } else if str_eq(scheme.as_str(), "https") {
        true
    } else {
        return Err(WsUrlError::UnsupportedScheme(scheme));
    };
    let ws = if secure {
        "wss"
    } else {
        "ws"
    };
    proof {
        reveal_strlit("http");
        reveal_strlit("https");
        reveal_strlit("ws");
        reveal_strlit("wss");
        reveal_strlit("/api/ws");
    }
    match build_uri(ws, authority, WEBSOCKET_PATH) {
        Ok(uri) => Ok(uri),
        Err(_) => Err(WsUrlError::InvalidUri),
    }
}

/// The websocket URI of the otel-worker at this URL: the scheme is the websocket
/// scheme that goes with the URL's, the authority is the same, and the path is
/// fixed.
pub fn get_ws_url(otel_worker_url: &str) -> (uri: Result<String, WsUrlError>)
    ensures
        match url_parts(otel_worker_url@) {
            Some((scheme, authority)) => is_ws_url(uri, scheme, authority),
            None => uri matches Err(WsUrlError::InvalidUrl),
        },
{
    match split_url(otel_worker_url) {
        Ok((scheme, authority)) => websocket_uri(scheme, authority.as_str()),
        Err(_) => Err(WsUrlError::InvalidUrl),
    }
}

/// What comes over the websocket.
#[derive(Debug, Clone, Copy, PartialEq, Eq, Structural)]
pub enum SocketEvent {
    /// A message that says that a span was added.
    SpanAdded,
    /// A message that says something else.
    OtherMessage,
    /// A frame that is no text.
    NoText,
    /// Nothing more: the websocket is closed, or failed.
    Closed,
}

/// What is done about it.
#[derive(Debug)]
pub enum SocketAction {
    /// All clients are told.
    Broadcast(NotificationFromServer),
    /// Nothing.
    Ignore,
    /// The websocket is read no further.
    Stop,
}

/// What is done about what comes over the websocket: with a new span the list of
/// resources may have changed, and nothing else is of interest.
pub fn on_socket_event(event: SocketEvent) -> (action: SocketAction)
    ensures
        match event {
            SocketEvent::SpanAdded => {
                &&& action matches SocketAction::Broadcast(notification)
                &&& notification.method@ == "notifications/resources/list_changed"@
                &&& notification.params is None
            },
            SocketEvent::OtherMessage => action is Ignore,
            SocketEvent::NoText => action is Ignore,
            SocketEvent::Closed => action is Stop,
        },
{
    match event {
        SocketEvent::SpanAdded => SocketAction::Broadcast(resource_list_changed()),
        SocketEvent::OtherMessage => SocketAction::Ignore,
        SocketEvent::NoText => SocketAction::Ignore,
        SocketEvent::Closed => SocketAction::Stop,
    }
}

/// The websocket of an otel-worker is where the otel-worker is: with the websocket
/// scheme that goes with its own, at the same authority, on one path.
pub proof fn law_websocket_is_where_the_worker_is(
    uri: Result<String, WsUrlError>,
    scheme: Seq<char>,
    authority: Seq<char>,
)
    requires
        is_ws_url(uri, scheme, authority),
    ensures
        scheme == "http"@ && uri is Ok ==> uri->Ok_0@ == "ws"@ + "://"@ + authority + "/api/ws"@,
        scheme == "https"@ && uri is Ok ==> uri->Ok_0@ == "wss"@ + "://"@ + authority + "/api/ws"@,
        uri is Ok ==> scheme == "http"@ || scheme == "https"@,
        scheme != "http"@ && scheme != "https"@ ==> (uri matches Err(WsUrlError::UnsupportedScheme(
            text,
        )) && text@ == scheme),
        scheme == "http"@ && uri_of_parts("ws"@, authority, "/api/ws"@) is Some ==> uri is Ok,
        scheme == "https"@ && uri_of_parts("wss"@, authority, "/api/ws"@) is Some ==> uri is Ok,
        scheme == "http"@ || scheme == "https"@ ==> (uri is Ok || uri matches Err(
            WsUrlError::InvalidUri,
        )),
{
    reveal_strlit("http");
    reveal_strlit("https");
    assert("http"@.len() != "https"@.len());
}

/// An otel-worker at a host of letters, digits, dots and hyphens, with or without a
/// port, has a websocket.
pub proof fn law_named_hosts_have_a_websocket(
    uri: Result<String, WsUrlError>,
    scheme: Seq<char>,
    host: Seq<char>,
    port: Seq<char>,
)
    requires
        scheme == "http"@ || scheme == "https"@,
        host.len() > 0,
        forall|i: int|
            0 <= i < host.len() ==> {
                ||| '0' <= #[trigger] host[i] <= '9'
                ||| 'a' <= host[i] <= 'z'
                ||| 'A' <= host[i] <= 'Z'
                ||| host[i] == '.'
                ||| host[i] == '-'
            },
        forall|i: int| 0 <= i < port.len() ==> '0' <= #[trigger] port[i] <= '9',
        is_ws_url(uri, scheme, host) || is_ws_url(uri, scheme, host + seq![':'] + port),
    ensures
        uri is Ok,
{
    reveal_strlit("http");
    reveal_strlit("https");
    assert("http"@.len() != "https"@.len());
    let whole = host + seq![':'] + port;
    assert(is_named_host(host));
    assert forall|i: int| 0 <= i < whole.len() implies is_alphanumeric(#[trigger] whole[i])
        || whole[i] == '.' || whole[i] == '-' || whole[i] == ':' by {
        if i < host.len() {
            assert(whole[i] == host[i]);
        } else if i > host.len() {
            assert(whole[i] == port[i - host.len() - 1]);
        }
    }
    assert forall|i: int, j: int| 0 <= i < j < whole.len() implies !(#[trigger] whole[i] == ':'
        && #[trigger] whole[j] == ':') by {
        if i < host.len() {
            assert(whole[i] == host[i]);
        }
        if j > host.len() {
            assert(whole[j] == port[j - host.len() - 1]);
        }
    }
    assert(is_named_host(whole));
}

/// Each error has its words, and the one about a scheme names it.
pub proof fn law_errors_have_their_words(error: WsUrlError)
    ensures
        error is InvalidUrl ==> error.text() == "invalid otel-worker URL"@,
        error matches WsUrlError::UnsupportedScheme(scheme) ==> error.text()
            == "unsupported scheme: "@ + scheme@,
        error is InvalidUri ==> error.text() == "unable to build otel-worker websocket URI"@,
{
}

/// A plain authority is not empty, and holds letters, digits and a few signs only:
/// nothing that ends an authority, and nothing that a URI has to encode.
pub proof fn law_plain_authority_has_plain_characters(authority: Seq<char>)
    requires
        is_plain_authority(authority),
    ensures
        authority.len() > 0,
        forall|i: int|
            0 <= i < authority.len() ==> {
                ||| '0' <= #[trigger] authority[i] <= '9'
                ||| 'a' <= authority[i] <= 'z'
                ||| 'A' <= authority[i] <= 'Z'
                ||| ".-:[]_~%@"@.contains(authority[i])
            },
{
    reveal_strlit(".-:[]_~%@");
    let signs = ".-:[]_~%@"@;
    assert(signs[0] == '.' && signs[1] == '-' && signs[2] == ':' && signs[3] == '[' && signs[4]
        == ']' && signs[5] == '_' && signs[6] == '~' && signs[7] == '%' && signs[8] == '@');
    if is_named_host(authority) {
    } else if is_bracketed_host(authority) {
        lemma_bracketed_characters(authority);
    } else {
        let (user, host) = choose|user: Seq<char>, host: Seq<char>|
            {
                &&& authority == #[trigger] with_user(user, host)
                &&& is_user(user)
                &&& is_named_host(host) || is_bracketed_host(host)
            };
        if is_bracketed_host(host) {
            lemma_bracketed_characters(host);
        }
        assert forall|i: int| 0 <= i < authority.len() implies {
            ||| '0' <= #[trigger] authority[i] <= '9'
            ||| 'a' <= authority[i] <= 'z'
            ||| 'A' <= authority[i] <= 'Z'
            ||| signs.contains(authority[i])
        } by {
            if i < user.len() {
                assert(authority[i] == user[i]);
            } else if i > user.len() {
                assert(authority[i] == host[i - user.len() - 1]);
            }
        }
    }
}

/// A host in brackets holds letters, digits, dots, colons and the brackets only.
proof fn lemma_bracketed_characters(host: Seq<char>)
    requires
        is_bracketed_host(host),
    ensures
        host.len() > 0,
        forall|i: int|
            0 <= i < host.len() ==> {
                ||| is_alphanumeric(#[trigger] host[i])
                ||| host[i] == '.'
                ||| host[i] == ':'
                ||| host[i] == '['
                ||| host[i] == ']'
            },
{
    let (address, port) = choose|address: Seq<char>, port: Seq<char>|
        {
            &&& host == #[trigger] bracketed(address, port)
            &&& forall|i: int|
                0 <= i < address.len() ==> is_alphanumeric(#[trigger] address[i]) || address[i]
                    == ':' || address[i] == '.'
            &&& colons(address) <= 8
            &&& port.len() > 0 ==> port[0] == ':'
            &&& forall|i: int| 0 < i < port.len() ==> '0' <= #[trigger] port[i] <= '9'
        };
    assert forall|i: int| 0 <= i < host.len() implies {
        ||| is_alphanumeric(#[trigger] host[i])
        ||| host[i] == '.'
        ||| host[i] == ':'
        ||| host[i] == '['
        ||| host[i] == ']'
    } by {
        if 0 < i <= address.len() {
            assert(host[i] == address[i - 1]);
        } else if i > address.len() + 1 {
            assert(host[i] == port[i - address.len() - 2]);
        }
    }
}

/// A plain scheme is a short word of letters and digits, and a plain path starts with
/// a slash and has nothing but such words between slashes.
pub proof fn law_plain_schemes_and_paths(text: Seq<char>)
    ensures
        is_plain_scheme(text) <==> (0 < text.len() <= 64 && forall|i: int|
            0 <= i < text.len() ==> {
                ||| '0' <= #[trigger] text[i] <= '9'
                ||| 'a' <= text[i] <= 'z'
                ||| 'A' <= text[i] <= 'Z'
            }),
        is_plain_path(text) <==> (0 < text.len() < 65534 && text[0] == '/' && forall|i: int|
            0 <= i < text.len() ==> {
                ||| '0' <= #[trigger] text[i] <= '9'
                ||| 'a' <= text[i] <= 'z'
                ||| 'A' <= text[i] <= 'Z'
                ||| text[i] == '/'
            }),
{
}

} // verus!
