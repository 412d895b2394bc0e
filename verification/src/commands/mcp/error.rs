//! Why a request is refused, and the answers to requests.
use super::messages::{
    internal_error, RequestId, ResultFromServer, ServerJsonrpcResponse, ServerMessage,
    INTERNAL_ERROR,
};
use super::session::McpSession;
use crate::text::join;
use vstd::prelude::*;

verus! {

/// Why a request got no result.
#[derive(Debug)]
pub enum HandlerError {
    /// The client speaks a version of the protocol that the server does not.
    UnsupportedVersion,
    /// The resource is not named by a kind and a name.
    InvalidUri,
    /// There are no resources of this kind.
    UnknownResourceType(String),
    /// The server does not take requests of this method.
    UnsupportedMessage,
    /// There is no such method.
    UnknownMethod,
    /// The otel-worker failed, with this text.
    Upstream(String),
}

impl HandlerError {
    /// The error in words.
    pub open spec fn text(self) -> Seq<char> {
        match self {
            HandlerError::UnsupportedVersion => "unsupported version"@,
            HandlerError::InvalidUri => "invalid uri"@,
            HandlerError::UnknownResourceType(kind) => "unknown resource type: "@ + kind@,
            HandlerError::UnsupportedMessage => "received unsupported json-rpc message"@,
            HandlerError::UnknownMethod => "unknown method"@,
            HandlerError::Upstream(text) => text@,
        }
    }

    /// The error in words.
    pub fn message(&self) -> (message: String)
        ensures
            message@ == self.text(),
    {
        match self {
            HandlerError::UnsupportedVersion => "unsupported version".to_owned(),
            HandlerError::InvalidUri => "invalid uri".to_owned(),
            HandlerError::UnknownResourceType(kind) => join(
                "unknown resource type: ",
                kind.as_str(),
            ),
            HandlerError::UnsupportedMessage => "received unsupported json-rpc message".to_owned(),
            HandlerError::UnknownMethod => "unknown method".to_owned(),
            HandlerError::Upstream(text) => text.clone(),
        }
    }
}

/// `message` answers the request `id` with what came of handling it.
pub open spec fn answered(
    message: ServerMessage,
    id: RequestId,
    result: Result<ResultFromServer, HandlerError>,
) -> bool {
    match result {
        Ok(result) => message == ServerMessage::Response(
            (ServerJsonrpcResponse { id, result }),
        ),
        Err(error) => message.refuses(id@, INTERNAL_ERROR as int, error.text()),
    }
}

/// The answer to a request: its result, or the error in words under the code of
/// an internal error.
pub fn answer(request_id: RequestId, result: Result<ResultFromServer, HandlerError>) -> (message:
    ServerMessage)
    ensures
        answered(message, request_id, result),
{
    match result {
        Ok(result) => McpSession::send_response(request_id, result),
        Err(error) => McpSession::send_error(request_id, internal_error(error.message())),
    }
}

/// Each error has its words, and the one about a kind of resource names it.
pub proof fn law_errors_have_their_words(error: HandlerError)
    ensures
        error is UnsupportedVersion ==> error.text() == "unsupported version"@,
        error is InvalidUri ==> error.text() == "invalid uri"@,
        error matches HandlerError::UnknownResourceType(kind) ==> error.text()
            == "unknown resource type: "@ + kind@,
        error is UnsupportedMessage ==> error.text() == "received unsupported json-rpc message"@,
        error is UnknownMethod ==> error.text() == "unknown method"@,
        error matches HandlerError::Upstream(words) ==> error.text() == words@,
{
}

/// A request is answered under its own id: with its result as it is, or with what
/// went wrong as an internal error.
pub proof fn law_outcome_is_the_answer(
    message: ServerMessage,
    id: RequestId,
    result: Result<ResultFromServer, HandlerError>,
)
    requires
        answered(message, id, result),
    ensures
        result matches Ok(result) ==> (message matches ServerMessage::Response(response)
            && response.id == id && response.result == result),
        result matches Err(error) ==> (message matches ServerMessage::Error(answer) && {
            &&& answer.id@ == id@
            &&& answer.error.code == -32603
            &&& answer.error.message@ == error.text()
            &&& answer.error.data is None
        }),
{
}

} // verus!
