//! The sessions of the MCP server: who is connected, and under which id.
use super::ids::{
    is_random_uuid, lemma_numbered_id_shape, lemma_numbered_ids_differ, number_id, numbered_id,
    numbered_ids, random_uuid,
};
use super::messages::{
    JsonrpcError, JsonrpcErrorError, NotificationFromServer, RequestId, RequestIdView,
    ResultFromServer, ServerJsonrpcNotification, ServerJsonrpcRequest, ServerJsonrpcResponse,
    ServerMessage,
};
use crate::text::str_eq;
use rust_mcp_schema::schema_utils::RequestFromServer;
use std::sync::Arc;
use tokio::sync::mpsc::{Receiver, Sender};
use vstd::prelude::*;

verus! {

/// The sending end of a session's channel, opaque but for [`channel_limit`] and
/// [`sender_channel`].
#[verifier::external_type_specification]
#[verifier::external_body]
#[verifier::reject_recursive_types(T)]
pub struct ExSender<T>(Sender<T>);

/// The receiving end of a session's channel, opaque but for
/// [`receiver_channel`].
#[verifier::external_type_specification]
#[verifier::external_body]
#[verifier::reject_recursive_types(T)]
pub struct ExReceiver<T>(Receiver<T>);

/// How many messages a channel holds before its sender has to wait.
pub uninterp spec fn channel_limit(sender: Sender<Arc<ServerMessage>>) -> nat;

/// Which channel a sending end belongs to.
pub uninterp spec fn sender_channel(sender: Sender<Arc<ServerMessage>>) -> int;

/// Which channel a receiving end belongs to.
pub uninterp spec fn receiver_channel(receiver: Receiver<Arc<ServerMessage>>) -> int;

/// Whether two ends are those of one channel: what is sent into the one comes out
/// of the other.
pub open spec fn connects(
    sender: Sender<Arc<ServerMessage>>,
    receiver: Receiver<Arc<ServerMessage>>,
) -> bool {
    sender_channel(sender) == receiver_channel(receiver)
}

/// How many messages a session holds for a client that does not take them.
pub const SESSION_BUFFER: usize = 100;

/// How many session ids are drawn for a new session, of which the first one that
/// is free is used. Where all are taken it gets a numbered one.
pub const REGISTER_ATTEMPTS: usize = 16;

/// `Arc::clone`: another pointer to the same message.
#[verifier::external_body]
fn share(message: &Arc<ServerMessage>) -> (shared: Arc<ServerMessage>)
    ensures
        shared == *message,
{
    Arc::clone(message)
}

/// `tokio::sync::mpsc::channel`: the two ends of one channel, which holds as many
/// messages as asked for. It is a channel of its own, and so not the one of a
/// session that is there already. When a message comes out is up to the tasks at
/// its ends; that messages come out in the order in which they went in is not
/// said.
#[verifier::external_body]
fn message_channel(limit: usize, others: &Vec<(String, McpSession)>) -> (ends: (
    Sender<Arc<ServerMessage>>,
    Receiver<Arc<ServerMessage>>,
))
    requires
        0 < limit <= usize::MAX / 8,
    ensures
        channel_limit(ends.0) == limit,
        sender_channel(ends.0) == receiver_channel(ends.1),
        forall|i: int|
            0 <= i < others@.len() ==> sender_channel((#[trigger] others@[i]).1.messages)
                != sender_channel(ends.0),
{
    tokio::sync::mpsc::channel(limit)
}

/// One connected client.
#[derive(Debug)]
pub struct McpSession {
    /// Takes the messages that the transport hands to the client.
    pub messages: Sender<Arc<ServerMessage>>,
}

impl McpSession {
    /// A session, and the end of its channel that the transport reads.
    pub fn new() -> (session: (McpSession, Receiver<Arc<ServerMessage>>))
        ensures
            channel_limit(session.0.messages) == SESSION_BUFFER,
            connects(session.0.messages, session.1),
    {
        McpSession::beside(&Vec::new())
    }

    /// A session beside others, none of which has its channel, and the end of the
    /// channel that the transport reads.
    fn beside(others: &Vec<(String, McpSession)>) -> (session: (
        McpSession,
        Receiver<Arc<ServerMessage>>,
    ))
        ensures
            channel_limit(session.0.messages) == SESSION_BUFFER,
            connects(session.0.messages, session.1),
            forall|i: int|
                0 <= i < others@.len() ==> sender_channel((#[trigger] others@[i]).1.messages)
                    != sender_channel(session.0.messages),
    {
        let (messages, receiver) = message_channel(SESSION_BUFFER, others);
        (McpSession { messages }, receiver)
    }

    /// The message that asks a client for something.
    pub fn send_request(request_id: RequestId, request: RequestFromServer) -> (message:
        ServerMessage)
        ensures
            message == ServerMessage::Request(
                (ServerJsonrpcRequest { id: request_id, request }),
            ),
    {
        ServerMessage::Request(ServerJsonrpcRequest { id: request_id, request })
    }

    /// The message that answers a request with a result.
    pub fn send_response(request_id: RequestId, response: ResultFromServer) -> (message:
        ServerMessage)
        ensures
            message == ServerMessage::Response(
                (ServerJsonrpcResponse { id: request_id, result: response }),
            ),
    {
        ServerMessage::Response(ServerJsonrpcResponse { id: request_id, result: response })
    }

    /// The message that answers a request with an error.
    pub fn send_error(request_id: RequestId, error: JsonrpcErrorError) -> (message: ServerMessage)
        ensures
            message == ServerMessage::Error((JsonrpcError { id: request_id, error })),
    {
        ServerMessage::Error(JsonrpcError { id: request_id, error })
    }

    /// The message that tells a client something.
    pub fn send_notification(notification: NotificationFromServer) -> (message: ServerMessage)
        ensures
            notifies(message, notification),
    {
        ServerMessage::Notification(ServerJsonrpcNotification { notification })
    }
}

/// The message that tells a client this.
pub open spec fn notifies(message: ServerMessage, notification: NotificationFromServer) -> bool {
    message == ServerMessage::Notification((ServerJsonrpcNotification { notification }))
}

/// The sessions of a list by their ids. Of two with one id the later counts.
pub open spec fn sessions_of(list: Seq<(String, McpSession)>) -> Map<Seq<char>, McpSession>
    decreases list.len(),
{
    if list.len() == 0 {
        Map::empty()
    } else {
        sessions_of(list.drop_last()).insert(list.last().0@, list.last().1)
    }
}

/// Ids as texts.
pub open spec fn id_texts(ids: Seq<String>) -> Seq<Seq<char>> {
    ids.map_values(|id: String| id@)
}

/// The first of the ids under which no session is open.
pub open spec fn first_free(
    ids: Seq<Seq<char>>,
    sessions: Map<Seq<char>, McpSession>,
) -> Option<Seq<char>>
    decreases ids.len(),
{
    if ids.len() == 0 {
        None
    } else if !sessions.dom().contains(ids[0]) {
        Some(ids[0])
    } else {
        first_free(ids.drop_first(), sessions)
    }
}

/// The ids are what chance may draw for a new session.
pub open spec fn are_draws(ids: Seq<Seq<char>>) -> bool {
    &&& ids.len() == REGISTER_ATTEMPTS
    &&& forall|i: int| 0 <= i < ids.len() ==> is_random_uuid(#[trigger] ids[i])
}

/// The ids that are tried for a new session: those that were drawn, and then
/// numbered ones, more than there are sessions.
pub open spec fn candidates(
    drawn: Seq<Seq<char>>,
    sessions: Map<Seq<char>, McpSession>,
) -> Seq<Seq<char>> {
    drawn + numbered_ids(sessions.dom().len() + 1)
}

/// A session is opened under `id`, which was free, and that is the only change to
/// the open sessions. It has a channel that none of them has, and its messages
/// come out of the receiver that is given for it.
pub open spec fn is_opened(
    opened: (String, Receiver<Arc<ServerMessage>>),
    id: Seq<char>,
    before: Map<Seq<char>, McpSession>,
    after: Map<Seq<char>, McpSession>,
) -> bool {
    &&& opened.0@ == id
    &&& !before.dom().contains(id)
    &&& after.dom().contains(id)
    &&& after == before.insert(id, after[id])
    &&& channel_limit(after[id].messages) == SESSION_BUFFER
    &&& connects(after[id].messages, opened.1)
    &&& forall|other: Seq<char>| #[trigger]
        before.dom().contains(other) ==> sender_channel(before[other].messages)
            != sender_channel(after[id].messages)
}

/// A session is opened under the first free one of the ids that are tried where
/// these were drawn.
pub open spec fn is_registration_of(
    opened: (String, Receiver<Arc<ServerMessage>>),
    drawn: Seq<Seq<char>>,
    before: Map<Seq<char>, McpSession>,
    after: Map<Seq<char>, McpSession>,
) -> bool {
    &&& first_free(candidates(drawn, before), before) == Some(opened.0@)
    &&& is_opened(opened, opened.0@, before, after)
}

/// The same where chance drew the ids: that of the session has the shape of what
/// it draws.
pub open spec fn is_registration(
    opened: (String, Receiver<Arc<ServerMessage>>),
    before: Map<Seq<char>, McpSession>,
    after: Map<Seq<char>, McpSession>,
) -> bool {
    &&& is_random_uuid(opened.0@)
    &&& exists|drawn: Seq<Seq<char>>| #[trigger]
        are_draws(drawn) && is_registration_of(opened, drawn, before, after)
}

/// The first free one of some ids is one of them and free, and where there is none
/// all are taken.
pub proof fn lemma_first_free(ids: Seq<Seq<char>>, sessions: Map<Seq<char>, McpSession>)
    ensures
        match first_free(ids, sessions) {
            Some(id) => ids.contains(id) && !sessions.dom().contains(id),
            None => forall|i: int|
                0 <= i < ids.len() ==> sessions.dom().contains(#[trigger] ids[i]),
        },
    decreases ids.len(),
{
    if ids.len() > 0 {
        let rest = ids.drop_first();
        lemma_first_free(rest, sessions);
        if sessions.dom().contains(ids[0]) {
            match first_free(rest, sessions) {
                Some(id) => {
                    let i = choose|i: int| 0 <= i < rest.len() && rest[i] == id;
                    assert(ids[i + 1] == id);
                },
                None => {
                    assert forall|i: int| 0 <= i < ids.len() implies sessions.dom().contains(
                        #[trigger] ids[i],
                    ) by {
                        if i > 0 {
                            assert(ids[i] == rest[i - 1]);
                        }
                    }
                },
            }
        }
    }
}

/// Among more numbered ids than there are sessions one is free.
proof fn lemma_numbered_free(sessions: Map<Seq<char>, McpSession>)
    requires
        sessions.dom().finite(),
        sessions.dom().len() <= u64::MAX,
    ensures
        first_free(numbered_ids(sessions.dom().len() + 1), sessions) is Some,
{
    let count = sessions.dom().len() + 1;
    let ids = numbered_ids(count);
    lemma_first_free(ids, sessions);
    if first_free(ids, sessions) is None {
        assert(ids.no_duplicates()) by {
            assert forall|i: int, j: int| 0 <= i < ids.len() && 0 <= j < ids.len() && i
                != j implies ids[i] != ids[j] by {
                if ids[i] == ids[j] {
                    lemma_numbered_ids_differ(i as nat, j as nat);
                }
            }
        }
        ids.unique_seq_to_set();
        assert(ids.to_set().subset_of(sessions.dom()));
        vstd::set_lib::lemma_len_subset(ids.to_set(), sessions.dom());
    }
}

/// What is not free among the first ids is looked for among the others.
proof fn lemma_first_free_of_both(
    left: Seq<Seq<char>>,
    right: Seq<Seq<char>>,
    sessions: Map<Seq<char>, McpSession>,
)
    ensures
        first_free(left + right, sessions) == match first_free(left, sessions) {
            Some(id) => Some(id),
            None => first_free(right, sessions),
        },
    decreases left.len(),
{
    if left.len() == 0 {
        assert(left + right =~= right);
    } else {
        assert((left + right).drop_first() =~= left.drop_first() + right);
        lemma_first_free_of_both(left.drop_first(), right, sessions);
    }
}

/// Of the ids that are tried one is free, and where chance drew the ids it has the
/// shape of what chance draws.
proof fn lemma_candidates(drawn: Seq<Seq<char>>, sessions: Map<Seq<char>, McpSession>)
    requires
        sessions.dom().finite(),
        sessions.dom().len() <= u64::MAX,
    ensures
        first_free(candidates(drawn, sessions), sessions) is Some,
        are_draws(drawn) ==> is_random_uuid(first_free(candidates(drawn, sessions), sessions)->0),
{
    let numbered = numbered_ids(sessions.dom().len() + 1);
    lemma_numbered_free(sessions);
    lemma_first_free_of_both(drawn, numbered, sessions);
    lemma_first_free(drawn, sessions);
    lemma_first_free(numbered, sessions);
    match first_free(drawn, sessions) {
        Some(id) => {
            let i = choose|i: int| 0 <= i < drawn.len() && drawn[i] == id;
            assert(drawn[i] == id);
        },
        None => {
            let id = first_free(numbered, sessions)->0;
            let i = choose|i: int| 0 <= i < numbered.len() && numbered[i] == id;
            assert(numbered[i] == numbered_id(i as nat));
            lemma_numbered_id_shape(i as nat);
        },
    }
}

/// Ids that chance may draw for a new session.
pub fn draw_ids() -> (ids: Vec<String>)
    ensures
        are_draws(id_texts(ids@)),
{
    let mut ids: Vec<String> = Vec::new();
    while ids.len() < REGISTER_ATTEMPTS
        invariant
            ids@.len() <= REGISTER_ATTEMPTS,
            forall|i: int| 0 <= i < ids@.len() ==> is_random_uuid(#[trigger] ids@[i]@),
        decreases REGISTER_ATTEMPTS - ids@.len(),
    {
        ids.push(random_uuid());
    }
    ids
}

/// No two entries of the list have one id.
pub open spec fn ids_differ(list: Seq<(String, McpSession)>) -> bool {
    forall|i: int, j: int|
        0 <= i < j < list.len() ==> #[trigger] list[i].0@ != #[trigger] list[j].0@
}

/// No two entries of the list have one channel.
pub open spec fn channels_differ(list: Seq<(String, McpSession)>) -> bool {
    forall|i: int, j: int|
        0 <= i < j < list.len() ==> sender_channel((#[trigger] list[i]).1.messages)
            != sender_channel((#[trigger] list[j]).1.messages)
}

/// Every entry is found under its id, and nothing else is found.
proof fn lemma_sessions_of(list: Seq<(String, McpSession)>)
    requires
        ids_differ(list),
    ensures
        forall|i: int|
            0 <= i < list.len() ==> sessions_of(list).contains_pair(
                (#[trigger] list[i]).0@,
                list[i].1,
            ),
        forall|id: Seq<char>| #[trigger]
            sessions_of(list).dom().contains(id) ==> exists|i: int|
                0 <= i < list.len() && (#[trigger] list[i]).0@ == id,
        sessions_of(list).dom().finite(),
        sessions_of(list).dom().len() == list.len(),
    decreases list.len(),
{
    if list.len() > 0 {
        let rest = list.drop_last();
        lemma_sessions_of(rest);
        if sessions_of(rest).dom().contains(list.last().0@) {
            let i = choose|i: int|
                0 <= i < rest.len() && (#[trigger] rest[i]).0@ == list.last().0@;
            assert(list[i].0@ != list[list.len() - 1].0@);
        }
        assert(sessions_of(list).dom() =~= sessions_of(rest).dom().insert(list.last().0@));
        assert forall|i: int| 0 <= i < list.len() implies sessions_of(list).contains_pair(
            (#[trigger] list[i]).0@,
            list[i].1,
        ) by {
            if i < rest.len() {
                assert(rest[i] == list[i]);
            }
        }
        assert forall|id: Seq<char>| #[trigger] sessions_of(list).dom().contains(id) implies exists|
            i: int,
        |
            0 <= i < list.len() && (#[trigger] list[i]).0@ == id by {
            if id == list.last().0@ {
                assert(list[list.len() - 1].0@ == id);
            } else {
                assert(sessions_of(rest).dom().contains(id));
                let i = choose|i: int| 0 <= i < rest.len() && (#[trigger] rest[i]).0@ == id;
                assert(list[i].0@ == id);
            }
        }
    }
}

/// A message and the session that it goes to.
#[derive(Debug)]
pub struct Delivery<'a> {
    pub session_id: &'a str,
    pub session: &'a McpSession,
    pub message: Arc<ServerMessage>,
}

/// Every session gets this message, once, and nobody else does.
pub open spec fn reaches_all(
    deliveries: Seq<Delivery<'_>>,
    sessions: Map<Seq<char>, McpSession>,
    message: ServerMessage,
) -> bool {
    &&& forall|i: int|
        0 <= i < deliveries.len() ==> {
            &&& sessions.contains_pair(
                (#[trigger] deliveries[i]).session_id@,
                *deliveries[i].session,
            )
            &&& *deliveries[i].message == message
        }
    &&& forall|i: int, j: int|
        0 <= i < j < deliveries.len() ==> #[trigger] deliveries[i].session_id@
            != #[trigger] deliveries[j].session_id@
    &&& forall|id: Seq<char>| #[trigger]
        sessions.dom().contains(id) ==> exists|i: int|
            0 <= i < deliveries.len() && (#[trigger] deliveries[i]).session_id@ == id
}

/// A broadcast brings every session exactly one message, which is the one that is
/// broadcast.
pub proof fn law_broadcast_reaches_each_session_once(
    deliveries: Seq<Delivery<'_>>,
    sessions: Map<Seq<char>, McpSession>,
    message: ServerMessage,
    id: Seq<char>,
)
    requires
        reaches_all(deliveries, sessions, message),
        sessions.dom().contains(id),
    ensures
        exists|i: int|
            0 <= i < deliveries.len() && {
                &&& (#[trigger] deliveries[i]).session_id@ == id
                &&& *deliveries[i].session == sessions[id]
                &&& *deliveries[i].message == message
                &&& forall|j: int|
                    0 <= j < deliveries.len() && j != i ==> (
                    #[trigger] deliveries[j]).session_id@ != id
            },
{
    let i = choose|i: int|
        0 <= i < deliveries.len() && (#[trigger] deliveries[i]).session_id@ == id;
    assert(sessions.contains_pair(deliveries[i].session_id@, *deliveries[i].session));
}

/// A notification answers no request, so that no client takes one for an answer.
pub proof fn law_notification_answers_nothing(
    message: ServerMessage,
    notification: NotificationFromServer,
    request_id: RequestIdView,
)
    requires
        notifies(message, notification),
    ensures
        !message.answers(request_id),
{
}

/// A session that is registered is a new one: its id was free, it is the only
/// change, and whoever was registered before still has the session that was
/// theirs. What it is told comes out of the receiver that was given for it and not
/// out of that of an earlier session, and what an earlier session is told comes
/// out of its own receiver and not out of the new one.
pub proof fn law_registered_session_is_a_new_one(
    opened: (String, Receiver<Arc<ServerMessage>>),
    before: Map<Seq<char>, McpSession>,
    after: Map<Seq<char>, McpSession>,
    earlier: Seq<char>,
    receiver: Receiver<Arc<ServerMessage>>,
)
    requires
        is_registration(opened, before, after),
    ensures
        !before.dom().contains(opened.0@),
        after.dom() == before.dom().insert(opened.0@),
        connects(after[opened.0@].messages, opened.1),
        before.dom().contains(earlier) && connects(before[earlier].messages, receiver) ==> {
            &&& after[earlier] == before[earlier]
            &&& connects(after[earlier].messages, receiver)
            &&& !connects(after[earlier].messages, opened.1)
            &&& !connects(after[opened.0@].messages, receiver)
        },
{
}

/// What the MCP server knows of its clients.
#[derive(Debug)]
pub struct McpState {
    sessions: Vec<(String, McpSession)>,
    shutting_down: bool,
}

impl McpState {
    /// No two sessions have one id, nor one channel.
    pub closed spec fn well_formed(&self) -> bool {
        &&& ids_differ(self.sessions@)
        &&& channels_differ(self.sessions@)
    }

    /// The sessions by their ids.
    pub closed spec fn sessions(&self) -> Map<Seq<char>, McpSession> {
        sessions_of(self.sessions@)
    }

    /// Whether the server is on its way out.
    pub closed spec fn down(&self) -> bool {
        self.shutting_down
    }

    /// A server without clients.
    pub fn new() -> (state: McpState)
        ensures
            state.well_formed(),
            state.sessions() == Map::<Seq<char>, McpSession>::empty(),
            !state.down(),
    {
        McpState { sessions: Vec::new(), shutting_down: false }
    }

    /// The session with this id.
    pub fn get_session(&self, session_id: &str) -> (session: Option<&McpSession>)
        requires
            self.well_formed(),
        ensures
            session is Some <==> self.sessions().dom().contains(session_id@),
            session matches Some(session) ==> self.sessions()[session_id@] == *session,
    {
        proof {
            lemma_sessions_of(self.sessions@);
        }
        let mut i: usize = 0;
        while i < self.sessions.len()
            invariant
                i <= self.sessions@.len(),
                forall|j: int| 0 <= j < i ==> (#[trigger] self.sessions@[j]).0@ != session_id@,
                forall|j: int|
                    0 <= j < self.sessions@.len() ==> sessions_of(self.sessions@).contains_pair(
                        (#[trigger] self.sessions@[j]).0@,
                        self.sessions@[j].1,
                    ),
            decreases self.sessions@.len() - i,
        {
            if str_eq(self.sessions[i].0.as_str(), session_id) {
                return Some(&self.sessions[i].1);
            }
            i = i + 1;
        }
        None
    }

    /// Opens a session under this id, where none is open under it. The session
    /// that is open under an id already is left as it is.
    pub fn insert_session(&mut self, id: String) -> (opened: Option<
        (String, Receiver<Arc<ServerMessage>>),
    >)
        requires
            old(self).well_formed(),
        ensures
            final(self).well_formed(),
            final(self).down() == old(self).down(),
            match opened {
                Some(opened) => is_opened(opened, id@, old(self).sessions(), final(self).sessions()),
                None => {
                    &&& old(self).sessions().dom().contains(id@)
                    &&& final(self).sessions() == old(self).sessions()
                },
            },
    {
        if self.get_session(id.as_str()).is_some() {
            return None;
        }
        proof {
            lemma_sessions_of(self.sessions@);
        }
        let (session, receiver) = McpSession::beside(&self.sessions);
        let ghost before = self.sessions@;
        self.sessions.push((id.clone(), session));
        proof {
            assert(self.sessions@.drop_last() =~= before);
            assert forall|i: int, j: int| 0 <= i < j < self.sessions@.len() implies (
            #[trigger] self.sessions@[i]).0@ != (#[trigger] self.sessions@[j]).0@ by {
                if j == before.len() {
                    assert(sessions_of(before).contains_pair(before[i].0@, before[i].1));
                }
            }
            assert forall|i: int, j: int| 0 <= i < j < self.sessions@.len() implies sender_channel(
                (#[trigger] self.sessions@[i]).1.messages,
            ) != sender_channel((#[trigger] self.sessions@[j]).1.messages) by {
                assert(before[i] == self.sessions@[i]);
                if j < before.len() {
                    assert(before[j] == self.sessions@[j]);
                }
            }
            assert forall|other: Seq<char>| #[trigger]
                sessions_of(before).dom().contains(other) implies sender_channel(
                sessions_of(before)[other].messages,
            ) != sender_channel(session.messages) by {
                let i = choose|i: int| 0 <= i < before.len() && (#[trigger] before[i]).0@ == other;
                assert(sessions_of(before).contains_pair(before[i].0@, before[i].1));
            }
        }
        Some((id, receiver))
    }

    /// Opens a session where these ids were drawn for it: under the first of them
    /// that is free, and where all are taken under the first numbered id that is.
    pub fn register_drawn(&mut self, ids: &Vec<String>) -> (opened: (
        String,
        Receiver<Arc<ServerMessage>>,
    ))
        requires
            old(self).well_formed(),
        ensures
            final(self).well_formed(),
            final(self).down() == old(self).down(),
            is_registration_of(
                opened,
                id_texts(ids@),
                old(self).sessions(),
                final(self).sessions(),
            ),
            are_draws(id_texts(ids@)) ==> is_random_uuid(opened.0@),
    {
        let ghost sessions = self.sessions();
        let ghost count = sessions.dom().len();
        let ghost drawn = id_texts(ids@);
        let ghost all = candidates(drawn, sessions);
        proof {
            lemma_sessions_of(self.sessions@);
            assert(count == self.sessions.len());
            lemma_candidates(drawn, sessions);
            assert(all.skip(0) =~= all);
        }
        let mut i: usize = 0;
        while i < ids.len()
            invariant
                i <= ids@.len(),
                drawn == id_texts(ids@),
                all == candidates(drawn, sessions),
                sessions == old(self).sessions(),
                self.well_formed(),
                self.down() == old(self).down(),
                self.sessions() == sessions,
                first_free(all, sessions) is Some,
                are_draws(drawn) ==> is_random_uuid(first_free(all, sessions)->0),
                first_free(all, sessions) == first_free(all.skip(i as int), sessions),
            decreases ids@.len() - i,
        {
            proof {
                assert(all.skip(i as int)[0] == ids@[i as int]@);
                assert(all.skip(i as int).drop_first() =~= all.skip(i + 1));
            }
            match self.insert_session(ids[i].clone()) {
                Some(opened) => {
                    return opened;
                },
                None => {},
            }
            i = i + 1;
        }
        let mut number: u64 = 0;
        loop
            invariant
                drawn == id_texts(ids@),
                all == candidates(drawn, sessions),
                count == sessions.dom().len(),
                count <= u64::MAX,
                number <= count,
                sessions == old(self).sessions(),
                self.well_formed(),
                self.down() == old(self).down(),
                self.sessions() == sessions,
                first_free(all, sessions) is Some,
                are_draws(drawn) ==> is_random_uuid(first_free(all, sessions)->0),
                first_free(all, sessions) == first_free(
                    all.skip(drawn.len() + number),
                    sessions,
                ),
            decreases count - number,
        {
            let ghost rest = all.skip(drawn.len() + number);
            proof {
                assert(rest[0] == numbered_id(number as nat));
                assert(rest.drop_first() =~= all.skip(drawn.len() + number + 1));
            }
            match self.insert_session(number_id(number)) {
                Some(opened) => {
                    return opened;
                },
                None => {},
            }
            assert(first_free(rest.drop_first(), sessions) is Some);
            assert(rest.drop_first().len() == count - number);
            number = number + 1;
        }
    }

    /// Opens a session under a fresh id, which is drawn by chance. No session that
    /// is open is touched: an id that is taken is thrown away and another one used.
    pub fn register_session(&mut self) -> (opened: (String, Receiver<Arc<ServerMessage>>))
        requires
            old(self).well_formed(),
        ensures
            final(self).well_formed(),
            final(self).down() == old(self).down(),
            is_registration(opened, old(self).sessions(), final(self).sessions()),
    {
        let ids = draw_ids();
        self.register_drawn(&ids)
    }

    /// A message to all clients: for every session, once, the message that it gets.
    pub fn broadcast(&self, message: Arc<ServerMessage>) -> (deliveries: Vec<Delivery<'_>>)
        requires
            self.well_formed(),
        ensures
            reaches_all(deliveries@, self.sessions(), *message),
    {
        let mut deliveries: Vec<Delivery> = Vec::new();
        let mut i: usize = 0;
        while i < self.sessions.len()
            invariant
                i <= self.sessions@.len(),
                deliveries@.len() == i,
                forall|j: int|
                    0 <= j < i ==> {
                        &&& (#[trigger] deliveries@[j]).session_id@ == self.sessions@[j].0@
                        &&& *deliveries@[j].session == self.sessions@[j].1
                        &&& *deliveries@[j].message == *message
                    },
            decreases self.sessions@.len() - i,
        {
            deliveries.push(
                Delivery {
                    session_id: self.sessions[i].0.as_str(),
                    session: &self.sessions[i].1,
                    message: share(&message),
                },
            );
            i = i + 1;
        }
        proof {
            lemma_sessions_of(self.sessions@);
            assert forall|k: int| 0 <= k < deliveries@.len() implies self.sessions().contains_pair(
                (#[trigger] deliveries@[k]).session_id@,
                *deliveries@[k].session,
            ) by {
                assert(self.sessions@[k].0@ == deliveries@[k].session_id@);
            }
            assert forall|k: int, l: int| 0 <= k < l < deliveries@.len() implies (
            #[trigger] deliveries@[k]).session_id@ != (#[trigger] deliveries@[l]).session_id@ by {
                assert(self.sessions@[k].0@ != self.sessions@[l].0@);
            }
            assert forall|id: Seq<char>| #[trigger]
                self.sessions().dom().contains(id) implies exists|k: int|
                0 <= k < deliveries@.len() && (#[trigger] deliveries@[k]).session_id@ == id by {
                let k = choose|k: int|
                    0 <= k < self.sessions@.len() && (#[trigger] self.sessions@[k]).0@ == id;
                assert(deliveries@[k].session_id@ == id);
            }
        }
        deliveries
    }

    /// A notification to all clients: for every session, once, the message that
    /// tells it this.
    pub fn broadcast_notification(&self, notification: NotificationFromServer) -> (deliveries: Vec<
        Delivery<'_>,
    >)
        requires
            self.well_formed(),
        ensures
            reaches_all(
                deliveries@,
                self.sessions(),
                ServerMessage::Notification((ServerJsonrpcNotification { notification })),
            ),
    {
        self.broadcast(Arc::new(McpSession::send_notification(notification)))
    }

    /// Whether the server is on its way out.
    pub fn is_shutting_down(&self) -> (down: bool)
        ensures
            down == self.down(),
    {
        self.shutting_down
    }

    /// Sends the server on its way out. Who is connected stays connected.
    pub fn shutdown(&mut self)
        requires
            old(self).well_formed(),
        ensures
            final(self).well_formed(),
            final(self).down(),
            final(self).sessions() == old(self).sessions(),
    {
        self.shutting_down = true;
    }
}

/// Every session has a channel of its own: what comes out of the receiver of one
/// comes from no other.
pub proof fn law_sessions_have_channels_of_their_own(
    state: McpState,
    left: Seq<char>,
    right: Seq<char>,
    receiver: Receiver<Arc<ServerMessage>>,
)
    requires
        state.well_formed(),
        state.sessions().dom().contains(left),
        state.sessions().dom().contains(right),
        left != right,
        connects(state.sessions()[right].messages, receiver),
    ensures
        !connects(state.sessions()[left].messages, receiver),
{
    let list = state.sessions@;
    lemma_sessions_of(list);
    let i = choose|i: int| 0 <= i < list.len() && (#[trigger] list[i]).0@ == left;
    let j = choose|j: int| 0 <= j < list.len() && (#[trigger] list[j]).0@ == right;
    assert(state.sessions().contains_pair(list[i].0@, list[i].1));
    assert(state.sessions().contains_pair(list[j].0@, list[j].1));
    if i < j {
        assert(sender_channel(list[i].1.messages) != sender_channel(list[j].1.messages));
    } else {
        assert(sender_channel(list[j].1.messages) != sender_channel(list[i].1.messages));
    }
}

/// A new session gets the first one of the ids that were drawn for it under which no
/// session is open: those before it are passed over because they are taken, and for
/// no other reason.
pub proof fn law_first_free_drawn_id_is_used(
    opened: (String, Receiver<Arc<ServerMessage>>),
    drawn: Seq<Seq<char>>,
    before: Map<Seq<char>, McpSession>,
    after: Map<Seq<char>, McpSession>,
    at: int,
)
    requires
        is_registration_of(opened, drawn, before, after),
        0 <= at < drawn.len(),
        !before.dom().contains(drawn[at]),
        forall|i: int| 0 <= i < at ==> before.dom().contains(#[trigger] drawn[i]),
    ensures
        opened.0@ == drawn[at],
{
    let all = candidates(drawn, before);
    assert forall|i: int| 0 <= i < at implies before.dom().contains(#[trigger] all[i]) by {
        assert(all[i] == drawn[i]);
    }
    assert(all[at] == drawn[at]);
    lemma_first_free_at(all, before, at);
}

/// Where all the ids that were drawn are taken, a new session gets the first
/// numbered one that is not.
pub proof fn law_first_free_number_is_used_in_need(
    opened: (String, Receiver<Arc<ServerMessage>>),
    drawn: Seq<Seq<char>>,
    before: Map<Seq<char>, McpSession>,
    after: Map<Seq<char>, McpSession>,
    number: nat,
)
    requires
        is_registration_of(opened, drawn, before, after),
        forall|i: int| 0 <= i < drawn.len() ==> before.dom().contains(#[trigger] drawn[i]),
        number <= before.dom().len(),
        !before.dom().contains(numbered_id(number)),
        forall|lower: nat| lower < number ==> before.dom().contains(#[trigger] numbered_id(lower)),
    ensures
        opened.0@ == numbered_id(number),
{
    let all = candidates(drawn, before);
    let at = drawn.len() + number;
    assert forall|i: int| 0 <= i < at implies before.dom().contains(#[trigger] all[i]) by {
        if i < drawn.len() {
            assert(all[i] == drawn[i]);
        } else {
            assert(all[i] == numbered_id((i - drawn.len()) as nat));
        }
    }
    assert(all[at as int] == numbered_id(number));
    lemma_first_free_at(all, before, at as int);
}

/// A free id behind taken ones is the first free one.
proof fn lemma_first_free_at(ids: Seq<Seq<char>>, sessions: Map<Seq<char>, McpSession>, at: int)
    requires
        0 <= at < ids.len(),
        !sessions.dom().contains(ids[at]),
        forall|i: int| 0 <= i < at ==> sessions.dom().contains(#[trigger] ids[i]),
    ensures
        first_free(ids, sessions) == Some(ids[at]),
    decreases at,
{
    if at > 0 {
        let rest = ids.drop_first();
        assert(sessions.dom().contains(ids[0]));
        assert forall|i: int| 0 <= i < at - 1 implies sessions.dom().contains(
            #[trigger] rest[i],
        ) by {
            assert(rest[i] == ids[i + 1]);
        }
        assert(rest[at - 1] == ids[at]);
        lemma_first_free_at(rest, sessions, at - 1);
    }
}

/// A session that is opened is the only change, under the id that was asked for,
/// which was free. It holds a hundred messages, it has a channel of its own, and the
/// receiver that is given for it is the other end of that channel.
pub proof fn law_opened_session_has_what_it_needs(
    opened: (String, Receiver<Arc<ServerMessage>>),
    id: Seq<char>,
    before: Map<Seq<char>, McpSession>,
    after: Map<Seq<char>, McpSession>,
    earlier: Seq<char>,
)
    requires
        is_opened(opened, id, before, after),
    ensures
        opened.0@ == id,
        !before.dom().contains(id),
        after.dom() == before.dom().insert(id),
        channel_limit(after[id].messages) == 100,
        sender_channel(after[id].messages) == receiver_channel(opened.1),
        before.dom().contains(earlier) ==> {
            &&& after[earlier] == before[earlier]
            &&& sender_channel(before[earlier].messages) != sender_channel(after[id].messages)
        },
{
}

/// A session that is registered is opened under the id that is given for it, and
/// that is one of those that were tried: of a shape that chance draws.
pub proof fn law_registered_session_is_opened(
    opened: (String, Receiver<Arc<ServerMessage>>),
    drawn: Seq<Seq<char>>,
    before: Map<Seq<char>, McpSession>,
    after: Map<Seq<char>, McpSession>,
)
    ensures
        is_registration_of(opened, drawn, before, after) ==> {
            &&& is_opened(opened, opened.0@, before, after)
            &&& drawn.contains(opened.0@) || exists|number: nat|
                opened.0@ == #[trigger] numbered_id(number)
        },
        is_registration(opened, before, after) ==> {
            &&& is_opened(opened, opened.0@, before, after)
            &&& is_random_uuid(opened.0@)
        },
{
    if is_registration_of(opened, drawn, before, after) {
        let all = candidates(drawn, before);
        lemma_first_free(all, before);
        let i = choose|i: int| 0 <= i < all.len() && all[i] == opened.0@;
        if i < drawn.len() {
            assert(drawn[i] == opened.0@);
        } else {
            assert(all[i] == numbered_id((i - drawn.len()) as nat));
        }
    }
}

/// Sixteen ids are drawn, each of the shape of a random UUID.
pub proof fn law_draws_are_random_uuids(ids: Seq<Seq<char>>)
    ensures
        are_draws(ids) <==> (ids.len() == 16 && forall|i: int|
            0 <= i < ids.len() ==> is_random_uuid(#[trigger] ids[i])),
{
}

/// Ids that are read as texts are as many, in their order, and each is what it says.
pub proof fn law_ids_are_read_as_they_are(ids: Seq<String>, at: int)
    ensures
        id_texts(ids).len() == ids.len(),
        0 <= at < ids.len() ==> id_texts(ids)[at] == ids[at]@,
{
}

/// Two ends connect where they are those of one channel.
pub proof fn law_ends_of_one_channel_connect(
    sender: Sender<Arc<ServerMessage>>,
    receiver: Receiver<Arc<ServerMessage>>,
)
    ensures
        connects(sender, receiver) <==> sender_channel(sender) == receiver_channel(receiver),
{
}

/// What a client is told is the notification, and nothing else.
pub proof fn law_notification_is_what_is_told(
    message: ServerMessage,
    notification: NotificationFromServer,
)
    ensures
        notifies(message, notification) <==> (message matches ServerMessage::Notification(told)
            && told.notification == notification),
{
}

/// A broadcast goes to sessions that are open, each under its own id, and to nobody
/// else, and what it brings is the message that is broadcast. It is as many
/// deliveries as there are sessions.
pub proof fn law_broadcast_reaches_nobody_else(
    deliveries: Seq<Delivery<'_>>,
    sessions: Map<Seq<char>, McpSession>,
    message: ServerMessage,
)
    requires
        reaches_all(deliveries, sessions, message),
    ensures
        forall|i: int|
            0 <= i < deliveries.len() ==> {
                &&& sessions.dom().contains((#[trigger] deliveries[i]).session_id@)
                &&& sessions[deliveries[i].session_id@] == *deliveries[i].session
                &&& *deliveries[i].message == message
            },
        sessions.dom().finite(),
        deliveries.len() == sessions.dom().len(),
{
    let ids = deliveries.map_values(|delivery: Delivery<'_>| delivery.session_id@);
    assert forall|i: int| 0 <= i < deliveries.len() implies sessions.dom().contains(
        (#[trigger] deliveries[i]).session_id@,
    ) by {
        assert(sessions.contains_pair(deliveries[i].session_id@, *deliveries[i].session));
    }
    assert forall|i: int, j: int| 0 <= i < ids.len() && 0 <= j < ids.len() && i != j implies ids[i]
        != ids[j] by {
        if i < j {
            assert(deliveries[i].session_id@ != deliveries[j].session_id@);
        } else {
            assert(deliveries[j].session_id@ != deliveries[i].session_id@);
        }
    }
    assert(ids.no_duplicates());
    ids.unique_seq_to_set();
    assert forall|id: Seq<char>| sessions.dom().contains(id) <==> #[trigger] ids.to_set().contains(
        id,
    ) by {
        if sessions.dom().contains(id) {
            let i = choose|i: int|
                0 <= i < deliveries.len() && (#[trigger] deliveries[i]).session_id@ == id;
            assert(ids[i] == id);
        }
        if ids.to_set().contains(id) {
            let i = choose|i: int| 0 <= i < ids.len() && ids[i] == id;
            assert(deliveries[i].session_id@ == id);
        }
    }
    assert(sessions.dom() =~= ids.to_set());
}

} // verus!
