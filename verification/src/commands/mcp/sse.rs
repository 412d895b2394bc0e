//! The transport over server sent events: a client reads the messages of its
//! session from an event stream, and posts its own messages to an endpoint that
//! the stream names first.
use super::dispatch::{
    handle_client_message, law_read_waits_for_the_spans_of_its_trace,
    law_tool_calls_wait_for_the_trace_they_name, message_step, Step,
};
use super::messages::{
    ClientMessage, ClientMessageView, ClientRequestView, Implementation, MemberView, RequestIdView,
    RequestView, ServerMessage,
};
use super::ids::is_random_uuid;
use super::session::{
    are_draws, connects, draw_ids, id_texts, is_registration, is_registration_of,
    law_sessions_have_channels_of_their_own, McpSession, McpState,
};
use crate::data::is_hex_encoded;
use crate::text::{join, str_eq};
use std::sync::Arc;
use tokio::sync::mpsc::Receiver;
use vstd::prelude::*;
use vstd::utf8::{encode_utf8, is_ascii_chars, is_ascii_chars_encode_utf8};

verus! {

/// Why encoding a query failed, carried but never looked at.
#[verifier::external_type_specification]
#[verifier::external_body]
pub struct ExQueryEncodeError(serde_urlencoded::ser::Error);

/// Why decoding a query failed, carried but never looked at.
#[verifier::external_type_specification]
#[verifier::external_body]
pub struct ExQueryDecodeError(serde_urlencoded::de::Error);

/// The status of a request that was taken in to be handled.
pub const ACCEPTED: u16 = 202;

/// The status of a request that makes no sense.
pub const BAD_REQUEST: u16 = 400;

/// The status of a request that comes too late.
pub const SERVICE_UNAVAILABLE: u16 = 503;

/// A byte that a form encoded text shows as it is: a letter or a digit of ASCII,
/// or one of four signs.
pub open spec fn shown_as_is(byte: u8) -> bool {
    ||| '0' as u8 <= byte <= '9' as u8
    ||| 'A' as u8 <= byte <= 'Z' as u8
    ||| 'a' as u8 <= byte <= 'z' as u8
    ||| byte == '*' as u8
    ||| byte == '-' as u8
    ||| byte == '.' as u8
    ||| byte == '_' as u8
}

/// The digit of the hexadecimal notation, in upper case, for a number under 16.
pub open spec fn upper_hex(digit: int) -> char {
    if digit < 10 {
        ('0' as int + digit) as char
    } else {
        ('A' as int + digit - 10) as char
    }
}

/// How a form encoded text shows a byte: as it is, a space as a plus sign, and
/// any other by a percent sign and its two hexadecimal digits.
pub open spec fn form_byte(byte: u8) -> Seq<char> {
    if shown_as_is(byte) {
        seq![byte as char]
    } else if byte == ' ' as u8 {
        seq!['+']
    } else {
        seq!['%', upper_hex(byte as int / 16), upper_hex(byte as int % 16)]
    }
}

/// Bytes in the form encoding.
pub open spec fn form_bytes(bytes: Seq<u8>) -> Seq<char>
    decreases bytes.len(),
{
    if bytes.len() == 0 {
        Seq::empty()
    } else {
        form_bytes(bytes.drop_last()) + form_byte(bytes.last())
    }
}

/// A name and its value as a form encoded pair.
pub open spec fn form_pair(name: Seq<char>, value: Seq<char>) -> Seq<char> {
    form_bytes(encode_utf8(name)) + seq!['='] + form_bytes(encode_utf8(value))
}

/// The names and values that a form encoded text holds, in its order.
pub uninterp spec fn form_pairs(text: Seq<char>) -> Seq<(Seq<char>, Seq<char>)>;

/// Names and values as texts.
pub open spec fn pair_texts(pairs: Seq<(String, String)>) -> Seq<(Seq<char>, Seq<char>)> {
    pairs.map_values(|pair: (String, String)| (pair.0@, pair.1@))
}

/// `serde_urlencoded::to_string` of one pair of texts: always succeeds, with
/// the UTF-8 of the name and of the value form encoded and an equals sign
/// between them.
#[verifier::external_body]
pub(crate) fn encode_pair(name: &str, value: &str) -> (encoded: Result<
    String,
    serde_urlencoded::ser::Error,
>)
    ensures
        encoded is Ok,
        encoded matches Ok(text) ==> text@ == form_pair(name@, value@),
{
    serde_urlencoded::to_string([(name, value)])
}

/// `serde_urlencoded::from_str` into pairs of texts: always succeeds, with the
/// pairs that [`form_pairs`] names. One pair that was form encoded is read back
/// as it was.
#[verifier::external_body]
pub(crate) fn decode_pairs(text: &str) -> (pairs: Result<
    Vec<(String, String)>,
    serde_urlencoded::de::Error,
>)
    ensures
        pairs is Ok,
        pairs matches Ok(pairs) ==> pair_texts(pairs@) == form_pairs(text@),
        pairs matches Ok(pairs) ==> forall|name: Seq<char>, value: Seq<char>|
            text@ == #[trigger] form_pair(name, value) ==> pair_texts(pairs@) == seq![
                (name, value),
            ],
{
    serde_urlencoded::from_str::<Vec<(String, String)>>(text)
}

/// Letters, digits, hyphens and underscores are form encoded as they are.
pub proof fn lemma_form_bytes_as_is(text: Seq<char>)
    requires
        forall|i: int|
            0 <= i < text.len() ==> {
                ||| '0' <= #[trigger] text[i] <= '9'
                ||| 'a' <= text[i] <= 'z'
                ||| 'A' <= text[i] <= 'Z'
                ||| text[i] == '-'
                ||| text[i] == '_'
            },
    ensures
        form_bytes(encode_utf8(text)) == text,
{
    assert(is_ascii_chars(text));
    is_ascii_chars_encode_utf8(text);
    lemma_form_bytes_of_shown(encode_utf8(text), text);
}

proof fn lemma_form_bytes_of_shown(bytes: Seq<u8>, text: Seq<char>)
    requires
        bytes.len() == text.len(),
        forall|i: int|
            0 <= i < bytes.len() ==> shown_as_is(#[trigger] bytes[i]) && bytes[i] as char
                == text[i],
    ensures
        form_bytes(bytes) == text,
    decreases bytes.len(),
{
    if bytes.len() > 0 {
        lemma_form_bytes_of_shown(bytes.drop_last(), text.drop_last());
        assert(form_byte(bytes.last()) =~= seq![text.last()]);
        assert(text =~= text.drop_last() + seq![text.last()]);
    } else {
        assert(text =~= Seq::empty());
    }
}

/// The query names a session more than once.
#[derive(Debug, Clone, Copy, PartialEq, Eq, Structural)]
pub struct InvalidQuery;

/// The query of a request to the endpoint that takes the messages of clients.
#[derive(Debug)]
pub struct JsonRpcQuery {
    pub session_id: Option<String>,
}

/// The session ids among names and values.
pub open spec fn session_ids(pairs: Seq<(Seq<char>, Seq<char>)>) -> Seq<Seq<char>>
    decreases pairs.len(),
{
    if pairs.len() == 0 {
        Seq::empty()
    } else if pairs.last().0 == "session_id"@ {
        session_ids(pairs.drop_last()).push(pairs.last().1)
    } else {
        session_ids(pairs.drop_last())
    }
}

/// The query that names and values come to: no session id or one, and nothing
/// else matters.
pub open spec fn query_of(
    query: Result<JsonRpcQuery, InvalidQuery>,
    pairs: Seq<(Seq<char>, Seq<char>)>,
) -> bool {
    let ids = session_ids(pairs);
    if ids.len() == 0 {
        query matches Ok(query) && query.session_id is None
    } else if ids.len() == 1 {
        query matches Ok(query) && query.session_id matches Some(id) && id@ == ids[0]
    } else {
        query is Err
    }
}

/// The query that a text in a URL comes to. The text that a session is written
/// as comes to that session.
pub open spec fn is_query_of_text(
    query: Result<JsonRpcQuery, InvalidQuery>,
    text: Seq<char>,
) -> bool {
    &&& query_of(query, form_pairs(text))
    &&& forall|id: Seq<char>|
        text == #[trigger] form_pair("session_id"@, id) ==> (query matches Ok(query)
            && query.session_id matches Some(given) && given@ == id)
}

impl JsonRpcQuery {
    /// The query that names this session, or none.
    pub fn new(session_id: Option<String>) -> (query: JsonRpcQuery)
        ensures
            query.session_id == session_id,
    {
        JsonRpcQuery { session_id }
    }

    /// The query as it stands in a URL.
    pub open spec fn text(self) -> Seq<char> {
        match self.session_id {
            Some(id) => form_pair("session_id"@, id@),
            None => Seq::empty(),
        }
    }

    /// The query as it stands in a URL.
    pub fn to_querystring(&self) -> (text: String)
        ensures
            text@ == self.text(),
    {
        match &self.session_id {
            Some(id) => match encode_pair("session_id", id.as_str()) {
                Ok(text) => text,
                Err(_) => String::new(),
            },
            None => String::new(),
        }
    }

    /// The query that names and values come to.
    pub fn from_pairs(pairs: &Vec<(String, String)>) -> (query: Result<JsonRpcQuery, InvalidQuery>)
        ensures
            query_of(query, pair_texts(pairs@)),
    {
        let ghost texts = pair_texts(pairs@);
        let mut session_id: Option<String> = None;
        let mut i: usize = 0;
        while i < pairs.len()
            invariant
                i <= pairs@.len(),
                texts == pair_texts(pairs@),
                match session_id {
                    None => session_ids(texts.take(i as int)).len() == 0,
                    Some(id) => {
                        &&& session_ids(texts.take(i as int)).len() == 1
                        &&& session_ids(texts.take(i as int))[0] == id@
                    },
                },
            decreases pairs@.len() - i,
        {
            proof {
                assert(texts.take(i + 1).drop_last() =~= texts.take(i as int));
                assert(texts.take(i + 1).last() == (pairs@[i as int].0@, pairs@[i as int].1@));
            }
            if str_eq(pairs[i].0.as_str(), "session_id") {
                if session_id.is_some() {
                    proof {
                        lemma_session_ids_grow(texts, i + 1);
                    }
                    return Err(InvalidQuery);
                }
                session_id = Some(pairs[i].1.clone());
            }
            i = i + 1;
        }
        proof {
            assert(texts.take(i as int) =~= texts);
        }
        Ok(JsonRpcQuery { session_id })
    }

    /// The query that stands in a URL. A query that [`JsonRpcQuery::to_querystring`]
    /// wrote for a session is read back as it was.
    pub fn from_querystring(text: &str) -> (query: Result<JsonRpcQuery, InvalidQuery>)
        ensures
            is_query_of_text(query, text@),
    {
        match decode_pairs(text) {
            Ok(pairs) => {
                let query = JsonRpcQuery::from_pairs(&pairs);
                proof {
                    assert forall|id: Seq<char>|
                        text@ == #[trigger] form_pair("session_id"@, id) implies (query matches Ok(
                        query,
                    ) && query.session_id matches Some(given) && given@ == id) by {
                        let texts = seq![("session_id"@, id)];
                        assert(pair_texts(pairs@) == texts);
                        assert(texts.drop_last() =~= Seq::empty());
                        assert(session_ids(texts.drop_last()) =~= Seq::<Seq<char>>::empty());
                        assert(session_ids(texts) =~= seq![id]);
                    }
                }
                query
            },
            Err(_) => Err(InvalidQuery),
        }
    }
}

/// The more names and values, the more session ids.
proof fn lemma_session_ids_grow(pairs: Seq<(Seq<char>, Seq<char>)>, n: int)
    requires
        0 <= n <= pairs.len(),
    ensures
        session_ids(pairs.take(n)).len() <= session_ids(pairs).len(),
    decreases pairs.len() - n,
{
    if n == pairs.len() {
        assert(pairs.take(n) =~= pairs);
    } else {
        assert(pairs.take(n + 1).drop_last() =~= pairs.take(n));
        lemma_session_ids_grow(pairs, n + 1);
    }
}

/// A request that is turned away, with its status and with why.
#[derive(Debug)]
pub struct Refusal {
    pub status: u16,
    pub body: String,
}

impl Refusal {
    /// The refusal has this status and gives this reason.
    pub open spec fn says(self, status: int, body: Seq<char>) -> bool {
        &&& self.status == status
        &&& self.body@ == body
    }
}

/// What becomes of a message that a client posts.
#[derive(Debug)]
pub enum Admission<'a> {
    /// It is turned away.
    Refused(Refusal),
    /// It is taken in, with the status [`ACCEPTED`], as one of this session, and
    /// this is how far it gets without the API. No step says that it is owed no
    /// answer.
    Accepted { session: &'a McpSession, step: Option<Step> },
}

/// Whether a message that a client posts for this session, or for none, is taken
/// in where these sessions are open, and what it comes to.
pub open spec fn is_admission(
    admission: Admission<'_>,
    sessions: Map<Seq<char>, McpSession>,
    session_id: Option<Seq<char>>,
    message: ClientMessageView,
    server_info: Implementation,
) -> bool {
    match session_id {
        None => {
            &&& admission matches Admission::Refused(refusal)
            &&& refusal.says(BAD_REQUEST as int, "session_id is required"@)
        },
        Some(id) => if sessions.dom().contains(id) {
            &&& admission matches Admission::Accepted { session, step }
            &&& *session == sessions[id]
            &&& message_step(step, message, server_info)
        } else {
            &&& admission matches Admission::Refused(refusal)
            &&& refusal.says(BAD_REQUEST as int, "session not found"@)
        },
    }
}

/// The text that is given, or nothing.
pub open spec fn text_of(given: Option<String>) -> Option<Seq<char>> {
    match given {
        Some(text) => Some(text@),
        None => None,
    }
}

/// Whether a message that a client posts is taken in, and for which session: it
/// has to name one that is open. A message that is taken in is handled as far as
/// it goes without the API.
pub fn json_rpc_handler(
    state: &McpState,
    query: JsonRpcQuery,
    client_message: ClientMessage,
    server_info: Implementation,
) -> (admission: Admission<'_>)
    requires
        state.well_formed(),
    ensures
        is_admission(
            admission,
            state.sessions(),
            text_of(query.session_id),
            client_message@,
            server_info,
        ),
        query.session_id matches Some(id) ==> {
            &&& admission is Accepted <==> state.sessions().dom().contains(id@)
            &&& admission matches Admission::Accepted { session, step } ==> {
                &&& *session == state.sessions()[id@]
                &&& message_step(step, client_message@, server_info)
            }
        },
{
    match query.session_id {
        None => Admission::Refused(
            Refusal { status: BAD_REQUEST, body: "session_id is required".to_owned() },
        ),
        Some(id) => match state.get_session(id.as_str()) {
            Some(session) => {
                let step = handle_client_message(client_message, server_info);
                Admission::Accepted { session, step }
            },
            None => Admission::Refused(
                Refusal { status: BAD_REQUEST, body: "session not found".to_owned() },
            ),
        },
    }
}

/// An event of an event stream.
#[derive(Debug)]
pub struct SseEvent {
    pub event: String,
    pub data: String,
}

impl SseEvent {
    /// The event has this name and this data.
    pub open spec fn says(self, event: Seq<char>, data: Seq<char>) -> bool {
        &&& self.event@ == event
        &&& self.data@ == data
    }
}

/// Where a client of this session posts its messages.
pub open spec fn endpoint(session_id: Seq<char>) -> Seq<char> {
    "/messages?"@ + form_pair("session_id"@, session_id)
}

/// The event that comes first on a stream: where the client posts its messages.
pub fn endpoint_event(session_id: String) -> (event: SseEvent)
    ensures
        event.says("endpoint"@, endpoint(session_id@)),
{
    let query = JsonRpcQuery::new(Some(session_id));
    let data = join("/messages?", query.to_querystring().as_str());
    SseEvent { event: "endpoint".to_owned(), data }
}

/// The event that brings a client a message, which comes as JSON.
pub fn message_event(json: String) -> (event: SseEvent)
    ensures
        event.says("message"@, json@),
{
    SseEvent { event: "message".to_owned(), data: json }
}

/// What becomes of a client that asks for an event stream.
#[derive(Debug)]
pub enum Opening {
    /// It is turned away.
    Refused(Refusal),
    /// It has a session, whose messages follow the first event on the stream.
    Opened { session_id: String, messages: Receiver<Arc<ServerMessage>>, first: SseEvent },
}

/// What becomes of a client that asks for an event stream of a server that is,
/// or is not, on its way out, where these ids were drawn: how the open sessions
/// change, and what the client is told.
pub open spec fn is_opening_under(
    opening: Opening,
    down: bool,
    drawn: Seq<Seq<char>>,
    before: Map<Seq<char>, McpSession>,
    after: Map<Seq<char>, McpSession>,
) -> bool {
    if down {
        &&& opening matches Opening::Refused(refusal)
        &&& refusal.says(SERVICE_UNAVAILABLE as int, "server is shutting down"@)
        &&& after == before
    } else {
        &&& opening matches Opening::Opened { session_id, messages, first }
        &&& is_registration_of((session_id, messages), drawn, before, after)
        &&& first.says("endpoint"@, endpoint(session_id@))
    }
}

/// The same where chance drew the ids: that of the session has the shape of what
/// it draws.
pub open spec fn is_opening(
    opening: Opening,
    down: bool,
    before: Map<Seq<char>, McpSession>,
    after: Map<Seq<char>, McpSession>,
) -> bool {
    &&& opening matches Opening::Opened { session_id, .. } ==> is_random_uuid(session_id@)
    &&& exists|drawn: Seq<Seq<char>>| #[trigger]
        are_draws(drawn) && is_opening_under(opening, down, drawn, before, after)
}

/// Opens a session for a client that asks for an event stream, where these ids were
/// drawn for it, unless the server is on its way out.
pub fn open_stream(state: &mut McpState, ids: &Vec<String>) -> (opening: Opening)
    requires
        old(state).well_formed(),
    ensures
        final(state).well_formed(),
        final(state).down() == old(state).down(),
        is_opening_under(
            opening,
            old(state).down(),
            id_texts(ids@),
            old(state).sessions(),
            final(state).sessions(),
        ),
        are_draws(id_texts(ids@)) ==> (opening matches Opening::Opened { session_id, .. }
            ==> is_random_uuid(session_id@)),
{
    if state.is_shutting_down() {
        return Opening::Refused(
            Refusal {
                status: SERVICE_UNAVAILABLE,
                body: "server is shutting down".to_owned(),
            },
        );
    }
    let (session_id, messages) = state.register_drawn(ids);
    let first = endpoint_event(session_id.clone());
    Opening::Opened { session_id, messages, first }
}

/// Opens a session for a client that asks for an event stream, unless the server
/// is on its way out.
pub fn sse_handler(state: &mut McpState) -> (opening: Opening)
    requires
        old(state).well_formed(),
    ensures
        final(state).well_formed(),
        final(state).down() == old(state).down(),
        is_opening(opening, old(state).down(), old(state).sessions(), final(state).sessions()),
{
    let ids = draw_ids();
    open_stream(state, &ids)
}

/// The endpoint of a session spells its id out: nothing in a random id has to be
/// encoded.
pub proof fn law_endpoint_spells_out_the_session(session_id: Seq<char>)
    requires
        is_random_uuid(session_id),
    ensures
        endpoint(session_id) == "/messages?session_id="@ + session_id,
{
    reveal_strlit("/messages?");
    reveal_strlit("session_id");
    reveal_strlit("/messages?session_id=");
    assert forall|i: int| 0 <= i < session_id.len() implies {
        ||| '0' <= #[trigger] session_id[i] <= '9'
        ||| 'a' <= session_id[i] <= 'z'
        ||| 'A' <= session_id[i] <= 'Z'
        ||| session_id[i] == '-'
        ||| session_id[i] == '_'
    } by {}
    lemma_form_bytes_as_is(session_id);
    lemma_form_bytes_as_is("session_id"@);
    assert(endpoint(session_id) =~= "/messages?session_id="@ + session_id);
}

/// No two sessions have one endpoint.
pub proof fn law_endpoints_tell_sessions_apart(left: Seq<char>, right: Seq<char>)
    requires
        is_random_uuid(left),
        is_random_uuid(right),
        endpoint(left) == endpoint(right),
    ensures
        left == right,
{
    law_endpoint_spells_out_the_session(left);
    law_endpoint_spells_out_the_session(right);
    let start = "/messages?session_id="@.len() as int;
    let all = endpoint(left).len() as int;
    assert(left =~= ("/messages?session_id="@ + left).subrange(start, all));
    assert(right =~= ("/messages?session_id="@ + right).subrange(start, all));
}

/// A client whose session was opened is let in with it, and whoever was let in
/// before still is, with the session that was theirs.
pub proof fn law_opened_session_is_let_in(
    opening: Opening,
    before: Map<Seq<char>, McpSession>,
    after: Map<Seq<char>, McpSession>,
    id: Seq<char>,
    admission: Admission<'_>,
    message: ClientMessageView,
    server_info: Implementation,
)
    requires
        is_opening(opening, false, before, after),
        is_admission(admission, after, Some(id), message, server_info),
        before.dom().contains(id) || (opening matches Opening::Opened { session_id, .. }
            && session_id@ == id),
    ensures
        admission matches Admission::Accepted { session, .. } && *session == after[id],
        before.dom().contains(id) ==> after[id] == before[id],
{
}

/// A client that posts to the endpoint that its stream named first is let in,
/// with the session that was opened for it: what the session is told comes out
/// on that stream.
pub proof fn law_named_endpoint_lets_in(
    opening: Opening,
    before: Map<Seq<char>, McpSession>,
    after: Map<Seq<char>, McpSession>,
    posted_to: Seq<char>,
    query: JsonRpcQuery,
    admission: Admission<'_>,
    message: ClientMessageView,
    server_info: Implementation,
)
    requires
        is_opening(opening, false, before, after),
        opening matches Opening::Opened { first, .. } && first.data@ == "/messages?"@ + posted_to,
        is_query_of_text(Ok(query), posted_to),
        is_admission(admission, after, text_of(query.session_id), message, server_info),
    ensures
        opening matches Opening::Opened { session_id, messages, .. } && {
            &&& admission matches Admission::Accepted { session, .. }
            &&& *session == after[session_id@]
            &&& connects(session.messages, messages)
        },
{
    if let Opening::Opened { session_id, messages: _, first } = opening {
        let written = form_pair("session_id"@, session_id@);
        let start = "/messages?"@.len() as int;
        let all = first.data@.len() as int;
        assert(posted_to =~= first.data@.subrange(start, all));
        assert(written =~= ("/messages?"@ + written).subrange(start, all));
    }
}

/// What a client posts concerns its own session and no other: it is answered under
/// its own id through the session that it names, whose messages come out of that
/// session's receiver, and not out of that of another session. A message that is
/// turned away comes with no session to answer through, and with nothing to ask
/// the API.
pub proof fn law_post_concerns_its_session_alone(
    state: McpState,
    admission: Admission<'_>,
    session_id: Option<Seq<char>>,
    message: ClientMessageView,
    server_info: Implementation,
    own: Receiver<Arc<ServerMessage>>,
    other_id: Seq<char>,
    other: Receiver<Arc<ServerMessage>>,
)
    requires
        state.well_formed(),
        is_admission(admission, state.sessions(), session_id, message, server_info),
        session_id matches Some(id) ==> (state.sessions().dom().contains(id) ==> connects(
            state.sessions()[id].messages,
            own,
        )),
        state.sessions().dom().contains(other_id),
        session_id != Some(other_id),
        connects(state.sessions()[other_id].messages, other),
    ensures
        match admission {
            Admission::Accepted { session, step } => {
                &&& session_id matches Some(id) && state.sessions().contains_pair(id, *session)
                &&& connects(session.messages, own)
                &&& !connects(session.messages, other)
                &&& message matches ClientMessageView::Request(request) ==> {
                    step matches Some(step) && step.concerns(request.id)
                }
            },
            Admission::Refused(refusal) => {
                &&& refusal.status == BAD_REQUEST
                &&& session_id matches Some(id) ==> !state.sessions().dom().contains(id)
            },
        },
{
    if let Some(id) = session_id {
        if state.sessions().dom().contains(id) {
            law_sessions_have_channels_of_their_own(state, id, other_id, other);
        }
    }
}

/// The stream of a session that was opened starts with where its client posts its
/// messages, and goes on with one event for each message of the session, in their
/// order, which brings its JSON, whatever that is.
pub proof fn law_stream_brings_the_messages_in_order(
    opening: Opening,
    before: Map<Seq<char>, McpSession>,
    after: Map<Seq<char>, McpSession>,
    messages: Seq<ServerMessage>,
    json: spec_fn(ServerMessage) -> Seq<char>,
    events: Seq<SseEvent>,
)
    requires
        is_opening(opening, false, before, after),
        events.len() == messages.len(),
        forall|i: int|
            0 <= i < events.len() ==> (#[trigger] events[i]).says("message"@, json(messages[i])),
    ensures
        opening matches Opening::Opened { session_id, first, .. } ==> {
            let stream = seq![first] + events;
            &&& stream.len() == messages.len() + 1
            &&& stream[0].says("endpoint"@, "/messages?session_id="@ + session_id@)
            &&& forall|i: int|
                0 <= i < messages.len() ==> stream[i + 1].says(
                    "message"@,
                    json(#[trigger] messages[i]),
                )
        },
{
    if let Opening::Opened { session_id, messages: _, first } = opening {
        law_endpoint_spells_out_the_session(session_id@);
        let stream = seq![first] + events;
        assert forall|i: int| 0 <= i < messages.len() implies stream[i + 1].says(
            "message"@,
            json(#[trigger] messages[i]),
        ) by {
            assert(stream[i + 1] == events[i]);
        }
    }
}

/// Once a server is on its way out no client gets a session any more.
pub proof fn law_no_session_after_shutdown(
    opening: Opening,
    before: Map<Seq<char>, McpSession>,
    after: Map<Seq<char>, McpSession>,
)
    requires
        is_opening(opening, true, before, after),
    ensures
        opening matches Opening::Refused(refusal) && refusal.status == SERVICE_UNAVAILABLE,
        after == before,
{
}

/// A message that is posted for a session that is open is taken in for that session
/// and handled as the message that it is. One that names no session, or none that is
/// open, is a bad request and says which of the two it is.
pub proof fn law_posts_are_taken_in_for_open_sessions(
    admission: Admission<'_>,
    sessions: Map<Seq<char>, McpSession>,
    session_id: Option<Seq<char>>,
    message: ClientMessageView,
    server_info: Implementation,
)
    requires
        is_admission(admission, sessions, session_id, message, server_info),
    ensures
        session_id is None ==> (admission matches Admission::Refused(refusal) && refusal.status
            == 400 && refusal.body@ == "session_id is required"@),
        session_id matches Some(id) ==> {
            &&& sessions.dom().contains(id) ==> (admission matches Admission::Accepted {
                session,
                step,
            } && *session == sessions[id] && message_step(step, message, server_info))
            &&& !sessions.dom().contains(id) ==> (admission matches Admission::Refused(refusal)
                && refusal.status == 400 && refusal.body@ == "session not found"@)
        },
{
}

/// A request that is posted for a session that is open is answered, or waits, as the
/// request that it is and under its own id: for the list of resources for the
/// traces, to read a trace for its spans, and for a call of "get_trace" for that
/// trace; only a ping is answered with nothing.
pub proof fn law_posted_requests_wait_for_what_they_ask(
    admission: Admission<'_>,
    sessions: Map<Seq<char>, McpSession>,
    session_id: Seq<char>,
    id: RequestIdView,
    request: RequestView,
    server_info: Implementation,
)
    requires
        sessions.dom().contains(session_id),
        is_admission(
            admission,
            sessions,
            Some(session_id),
            ClientMessageView::Request((ClientRequestView { id, request })),
            server_info,
        ),
    ensures
        admission matches Admission::Accepted { session, step: Some(step) } && {
            &&& *session == sessions[session_id]
            &&& request is ListResources ==> (step matches Step::ListTraces(pending)
                && pending.request_id@ == id)
            &&& request matches RequestView::ReadResource(uri) ==> forall|trace_id: Seq<char>|
                uri == #[trigger] ("trace://"@ + trace_id) ==> (step matches Step::ReadSpans(
                    pending,
                ) && pending.request_id@ == id && pending.trace_id@ == trace_id)
            &&& request matches RequestView::CallTool(name, arguments) ==> forall|
                trace_id: Seq<char>,
            |
                name == "get_trace"@ && is_hex_encoded(trace_id)
                    && #[trigger] arguments.contains_pair(
                    "trace_id"@,
                    MemberView::String(trace_id),
                ) ==> (step matches Step::GetTrace(pending) && pending.request_id@ == id
                    && pending.trace_id@ == trace_id)
            &&& (step matches Step::Reply(ServerMessage::Response(response))
                && response.result is Empty) ==> request is Ping
        },
{
    law_posts_are_taken_in_for_open_sessions(
        admission,
        sessions,
        Some(session_id),
        ClientMessageView::Request(ClientRequestView { id, request }),
        server_info,
    );
    if let Admission::Accepted { session: _, step: Some(step) } = admission {
        match request {
            RequestView::ReadResource(uri) => {
                law_read_waits_for_the_spans_of_its_trace(step, id, uri, server_info);
            },
            RequestView::CallTool(name, arguments) => {
                law_tool_calls_wait_for_the_trace_they_name(
                    step,
                    id,
                    name,
                    arguments,
                    server_info,
                );
            },
            _ => {},
        }
    }
}

/// A query names a session where it gives one session id, whatever else it gives and
/// wherever; without one it names none, and with two it is invalid.
pub proof fn law_query_names_the_session_that_is_given_once(
    query: Result<JsonRpcQuery, InvalidQuery>,
    pairs: Seq<(Seq<char>, Seq<char>)>,
    at: int,
    other: int,
)
    requires
        query_of(query, pairs),
        0 <= at < pairs.len(),
    ensures
        (forall|i: int| 0 <= i < pairs.len() ==> (#[trigger] pairs[i]).0 != "session_id"@) ==> (
        query matches Ok(query) && query.session_id is None),
        pairs[at].0 == "session_id"@ && (forall|i: int|
            0 <= i < pairs.len() && i != at ==> (#[trigger] pairs[i]).0 != "session_id"@) ==> (
        query matches Ok(query) && query.session_id matches Some(id) && id@ == pairs[at].1),
        at < other < pairs.len() && pairs[at].0 == "session_id"@ && pairs[other].0
            == "session_id"@ ==> query is Err,
{
    if forall|i: int| 0 <= i < pairs.len() ==> (#[trigger] pairs[i]).0 != "session_id"@ {
        lemma_session_ids_of_none(pairs);
    }
    if pairs[at].0 == "session_id"@ {
        if forall|i: int| 0 <= i < pairs.len() && i != at ==> (#[trigger] pairs[i]).0
            != "session_id"@ {
            lemma_session_ids_of_one(pairs, at);
        }
        if at < other < pairs.len() && pairs[other].0 == "session_id"@ {
            let start = pairs.take(other);
            assert(start.take(at + 1).drop_last() =~= start.take(at));
            lemma_session_ids_grow(start, at + 1);
            assert(pairs.take(other + 1).drop_last() =~= start);
            lemma_session_ids_grow(pairs, other + 1);
        }
    }
}

/// An empty query names no session.
pub proof fn law_empty_query_names_no_session(query: Result<JsonRpcQuery, InvalidQuery>)
    requires
        query_of(query, Seq::<(Seq<char>, Seq<char>)>::empty()),
    ensures
        query matches Ok(query) && query.session_id is None,
{
}

/// Among names none of which is that of a session id there are none.
proof fn lemma_session_ids_of_none(pairs: Seq<(Seq<char>, Seq<char>)>)
    requires
        forall|i: int| 0 <= i < pairs.len() ==> (#[trigger] pairs[i]).0 != "session_id"@,
    ensures
        session_ids(pairs).len() == 0,
    decreases pairs.len(),
{
    if pairs.len() > 0 {
        let rest = pairs.drop_last();
        assert forall|i: int| 0 <= i < rest.len() implies (#[trigger] rest[i]).0
            != "session_id"@ by {
            assert(rest[i] == pairs[i]);
        }
        assert(pairs[pairs.len() - 1].0 != "session_id"@);
        lemma_session_ids_of_none(rest);
    }
}

/// Where one name is that of a session id, its value is the one that there is.
proof fn lemma_session_ids_of_one(pairs: Seq<(Seq<char>, Seq<char>)>, at: int)
    requires
        0 <= at < pairs.len(),
        pairs[at].0 == "session_id"@,
        forall|i: int|
            0 <= i < pairs.len() && i != at ==> (#[trigger] pairs[i]).0 != "session_id"@,
    ensures
        session_ids(pairs).len() == 1,
        session_ids(pairs)[0] == pairs[at].1,
    decreases pairs.len(),
{
    let rest = pairs.drop_last();
    assert forall|i: int| 0 <= i < rest.len() && i != at implies (#[trigger] rest[i]).0
        != "session_id"@ by {
        assert(rest[i] == pairs[i]);
    }
    if at == pairs.len() - 1 {
        lemma_session_ids_of_none(rest);
    } else {
        assert(pairs[pairs.len() - 1].0 != "session_id"@);
        assert(rest[at] == pairs[at]);
        lemma_session_ids_of_one(rest, at);
    }
}

/// What is read from a URL is what the names and values in it come to, and a query
/// that was written for a session is read back as one for that session.
pub proof fn law_written_query_is_read_back(
    query: Result<JsonRpcQuery, InvalidQuery>,
    text: Seq<char>,
    written: JsonRpcQuery,
)
    requires
        is_query_of_text(query, text),
    ensures
        query_of(query, form_pairs(text)),
        text == written.text() ==> (written.session_id matches Some(id) ==> (query matches Ok(read)
            && read.session_id matches Some(given) && given@ == id@)),
{
}

/// A query is written with the id of its session spelled out, where it is made of
/// letters, digits, hyphens and underscores, and one for no session is empty.
pub proof fn law_query_spells_out_the_session(query: JsonRpcQuery)
    ensures
        query.session_id is None ==> query.text().len() == 0,
        query.session_id matches Some(id) ==> {
            &&& query.text() == form_pair("session_id"@, id@)
            &&& (forall|i: int|
                0 <= i < id@.len() ==> {
                    ||| '0' <= #[trigger] id@[i] <= '9'
                    ||| 'a' <= id@[i] <= 'z'
                    ||| 'A' <= id@[i] <= 'Z'
                    ||| id@[i] == '-'
                    ||| id@[i] == '_'
                }) ==> query.text() == "session_id="@ + id@
        },
{
    reveal_strlit("session_id");
    reveal_strlit("session_id=");
    if let Some(id) = query.session_id {
        lemma_form_bytes_as_is("session_id"@);
        if forall|i: int|
            0 <= i < id@.len() ==> {
                ||| '0' <= #[trigger] id@[i] <= '9'
                ||| 'a' <= id@[i] <= 'z'
                ||| 'A' <= id@[i] <= 'Z'
                ||| id@[i] == '-'
                ||| id@[i] == '_'
            } {
            lemma_form_bytes_as_is(id@);
            assert(query.text() =~= "session_id="@ + id@);
        }
    }
}

/// Names and values that are read as texts are as many, in their order, and each is
/// what it says. A text that may be given is given or not, and is what it says.
pub proof fn law_pairs_are_read_as_they_are(
    pairs: Seq<(String, String)>,
    at: int,
    given: Option<String>,
)
    ensures
        pair_texts(pairs).len() == pairs.len(),
        0 <= at < pairs.len() ==> pair_texts(pairs)[at] == (pairs[at].0@, pairs[at].1@),
        given is None <==> text_of(given) is None,
        given matches Some(text) ==> text_of(given) == Some(text@),
{
}

/// A refusal and an event say what they hold, and nothing else.
pub proof fn law_refusals_and_events_say_what_they_hold(
    refusal: Refusal,
    status: int,
    event: SseEvent,
    name: Seq<char>,
    text: Seq<char>,
)
    ensures
        refusal.says(status, text) <==> (refusal.status == status && refusal.body@ == text),
        event.says(name, text) <==> (event.event@ == name && event.data@ == text),
{
}

/// The endpoint of a session is where messages are posted, with the query that names
/// the session.
pub proof fn law_endpoint_names_the_session(session_id: Seq<char>, query: JsonRpcQuery)
    requires
        query.session_id matches Some(id) && id@ == session_id,
    ensures
        endpoint(session_id) == "/messages?"@ + query.text(),
{
}

/// A client that asks in time for an event stream gets a session, which is registered
/// for it, and is told first where to post its messages. One that asks too late is
/// told so, and nothing changes.
pub proof fn law_streams_are_opened_in_time(
    opening: Opening,
    down: bool,
    drawn: Seq<Seq<char>>,
    before: Map<Seq<char>, McpSession>,
    after: Map<Seq<char>, McpSession>,
)
    requires
        is_opening_under(opening, down, drawn, before, after),
    ensures
        !down ==> (opening matches Opening::Opened { session_id, messages, first } && {
            &&& is_registration_of((session_id, messages), drawn, before, after)
            &&& first.event@ == "endpoint"@
            &&& first.data@ == "/messages?"@ + form_pair("session_id"@, session_id@)
        }),
        down ==> after == before && (opening matches Opening::Refused(refusal) && refusal.status
            == 503 && refusal.body@ == "server is shutting down"@),
{
}

/// The same holds where chance drew the ids, and the id of the session has the shape
/// of what chance draws.
pub proof fn law_chance_opens_streams_in_time(
    opening: Opening,
    down: bool,
    before: Map<Seq<char>, McpSession>,
    after: Map<Seq<char>, McpSession>,
)
    requires
        is_opening(opening, down, before, after),
    ensures
        !down ==> (opening matches Opening::Opened { session_id, messages, first } && {
            &&& is_registration((session_id, messages), before, after)
            &&& first.event@ == "endpoint"@
            &&& first.data@ == "/messages?"@ + form_pair("session_id"@, session_id@)
        }),
        down ==> after == before && (opening matches Opening::Refused(refusal) && refusal.status
            == 503 && refusal.body@ == "server is shutting down"@),
{
}

/// A byte is form encoded as it is where it is a letter, a digit or one of four
/// signs, as a plus sign where it is a space, and else as a percent sign and its two
/// hexadecimal digits.
pub proof fn law_bytes_are_form_encoded(byte: u8)
    ensures
        ({
            let plain = {
                ||| '0' as u8 <= byte <= '9' as u8
                ||| 'A' as u8 <= byte <= 'Z' as u8
                ||| 'a' as u8 <= byte <= 'z' as u8
                ||| "*-._"@.contains(byte as char)
            };
            &&& plain <==> form_byte(byte) == seq![byte as char]
            &&& byte == ' ' as u8 <==> form_byte(byte) == seq!['+']
            &&& !plain && byte != ' ' as u8 ==> form_byte(byte) == seq![
                '%',
                "0123456789ABCDEF"@[byte as int / 16],
                "0123456789ABCDEF"@[byte as int % 16],
            ]
        }),
{
    reveal_strlit("*-._");
    reveal_strlit("0123456789ABCDEF");
    let signs = "*-._"@;
    assert(signs[0] == '*' && signs[1] == '-' && signs[2] == '.' && signs[3] == '_');
    let shown = form_byte(byte);
    if shown_as_is(byte) || byte == ' ' as u8 {
        assert(shown.len() == 1);
        assert(seq!['+'][0] == '+');
        assert(seq![byte as char][0] == byte as char);
    } else {
        assert(shown.len() == 3);
        assert(seq!['+'].len() == 1);
        assert(seq![byte as char].len() == 1);
    }
}

} // verus!
