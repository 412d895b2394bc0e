//! The messages that the MCP server and its clients exchange.
use self::RequestFromClient::{
    CallTool, Complete, Custom, GetPrompt, Initialize, ListPrompts, ListResourceTemplates,
    ListResources, ListTools, Ping, ReadResource, SetLevel, Subscribe, Unsubscribe,
};
use rust_mcp_schema::schema_utils::ClientMessage as Wire;
use rust_mcp_schema::schema_utils::RequestFromClient::ClientRequest as Standard;
use rust_mcp_schema::schema_utils::RequestFromClient::CustomRequest;
use rust_mcp_schema::schema_utils::{RPCMessage, RequestFromServer, RpcErrorCodes};
use rust_mcp_schema::ClientRequest::{
    CallToolRequest, CompleteRequest, GetPromptRequest, InitializeRequest, ListPromptsRequest,
    ListResourceTemplatesRequest, ListResourcesRequest, ListToolsRequest, PingRequest,
    ReadResourceRequest, SetLevelRequest, SubscribeRequest, UnsubscribeRequest,
};
use rust_mcp_schema::RequestId as WireId;
use serde_json::Value;
use vstd::prelude::*;

verus! {

/// A JSON value, opaque here.
#[verifier::external_type_specification]
#[verifier::external_body]
pub struct ExJsonValue(serde_json::Value);

/// Why a text is no JSON of the wanted kind, carried but never looked at.
#[verifier::external_type_specification]
#[verifier::external_body]
pub struct ExJsonError(serde_json::Error);

/// A JSON object, opaque but for [`object_entries`].
#[verifier::external_type_specification]
#[verifier::external_body]
#[verifier::reject_recursive_types(K)]
#[verifier::reject_recursive_types(V)]
pub struct ExJsonMap<K, V>(serde_json::Map<K, V>);

/// A request that a server may send to its client, carried but never looked at.
#[verifier::external_type_specification]
#[verifier::external_body]
pub struct ExRequestFromServer(RequestFromServer);

/// A member of a JSON object, with what it holds where that is looked at.
#[derive(Debug)]
pub enum Member {
    Null,
    Bool,
    Number,
    String(String),
    Array,
    Object,
}

/// A [`Member`], mathematically.
pub enum MemberView {
    Null,
    Bool,
    Number,
    String(Seq<char>),
    Array,
    Object,
}

impl View for Member {
    type V = MemberView;

    open spec fn view(&self) -> MemberView {
        match self {
            Member::Null => MemberView::Null,
            Member::Bool => MemberView::Bool,
            Member::Number => MemberView::Number,
            Member::String(text) => MemberView::String(text@),
            Member::Array => MemberView::Array,
            Member::Object => MemberView::Object,
        }
    }
}

/// What a JSON object holds: each member under its key.
pub uninterp spec fn object_entries(
    object: serde_json::Map<String, Value>,
) -> Map<Seq<char>, MemberView>;

/// The code of an internal error, as JSON-RPC numbers it.
pub const INTERNAL_ERROR: i64 = -32603;

/// The code of a call with parameters that the method does not take.
pub const INVALID_PARAMS: i64 = -32602;

/// The code of a call of something that there is not.
pub const METHOD_NOT_FOUND: i64 = -32601;

/// What a client numbers its requests with, and finds the reply by.
#[derive(Debug)]
pub enum RequestId {
    String(String),
    Integer(i64),
}

/// A name and a version, of a server or of a client.
#[derive(Debug)]
pub struct Implementation {
    pub name: String,
    pub version: String,
}

/// What a client asks for, with what is looked at of it.
#[derive(Debug)]
pub enum RequestFromClient {
    /// To open a conversation in this version of the protocol.
    Initialize(String),
    /// A sign of life.
    Ping,
    /// The list of resources.
    ListResources,
    /// The list of templates of resources.
    ListResourceTemplates,
    /// The resource at this URI.
    ReadResource(String),
    /// To be told when a resource changes.
    Subscribe,
    /// To be told so no longer.
    Unsubscribe,
    /// The list of prompts.
    ListPrompts,
    /// One prompt.
    GetPrompt,
    /// The list of tools.
    ListTools,
    /// A call of the tool of this name, with these arguments.
    CallTool(String, Option<serde_json::Map<String, Value>>),
    /// To hear of log messages from some level on.
    SetLevel,
    /// The ways to complete an argument.
    Complete,
    /// Something that the protocol does not know.
    Custom,
}

/// A request of a client, with what the reply is found by.
#[derive(Debug)]
pub struct ClientJsonrpcRequest {
    pub id: RequestId,
    pub request: RequestFromClient,
}

/// A message of a client. A reply to a request of the server has the id of that.
#[derive(Debug)]
pub enum ClientMessage {
    Request(ClientJsonrpcRequest),
    Notification,
    Response(RequestId),
    Error(RequestId),
}

/// A message of a client without its id.
#[derive(Debug)]
enum Unnumbered {
    Request(RequestFromClient),
    Notification,
    Response,
    Error,
}

/// A [`RequestId`], mathematically.
pub enum RequestIdView {
    String(Seq<char>),
    Integer(i64),
}

/// A [`RequestFromClient`], mathematically.
pub enum RequestView {
    Initialize(Seq<char>),
    Ping,
    ListResources,
    ListResourceTemplates,
    ReadResource(Seq<char>),
    Subscribe,
    Unsubscribe,
    ListPrompts,
    GetPrompt,
    ListTools,
    CallTool(Seq<char>, Map<Seq<char>, MemberView>),
    SetLevel,
    Complete,
    Custom,
}

/// A [`ClientJsonrpcRequest`], mathematically.
pub struct ClientRequestView {
    pub id: RequestIdView,
    pub request: RequestView,
}

/// A [`ClientMessage`], mathematically.
pub enum ClientMessageView {
    Request(ClientRequestView),
    Notification,
    Response(RequestIdView),
    Error(RequestIdView),
}

impl ClientMessageView {
    /// The id that a message has.
    pub open spec fn id(self) -> Option<RequestIdView> {
        match self {
            ClientMessageView::Request(request) => Some(request.id),
            ClientMessageView::Notification => None,
            ClientMessageView::Response(id) => Some(id),
            ClientMessageView::Error(id) => Some(id),
        }
    }
}

/// The arguments of a call by their names: none where none are given.
pub open spec fn arguments_of(arguments: Option<serde_json::Map<String, Value>>) -> Map<
    Seq<char>,
    MemberView,
> {
    match arguments {
        Some(object) => object_entries(object),
        None => Map::empty(),
    }
}

impl View for RequestId {
    type V = RequestIdView;

    open spec fn view(&self) -> RequestIdView {
        match self {
            RequestId::String(text) => RequestIdView::String(text@),
            RequestId::Integer(number) => RequestIdView::Integer(*number),
        }
    }
}

impl View for RequestFromClient {
    type V = RequestView;

    open spec fn view(&self) -> RequestView {
        match self {
            RequestFromClient::Initialize(version) => RequestView::Initialize(version@),
            RequestFromClient::Ping => RequestView::Ping,
            RequestFromClient::ListResources => RequestView::ListResources,
            RequestFromClient::ListResourceTemplates => RequestView::ListResourceTemplates,
            RequestFromClient::ReadResource(uri) => RequestView::ReadResource(uri@),
            RequestFromClient::Subscribe => RequestView::Subscribe,
            RequestFromClient::Unsubscribe => RequestView::Unsubscribe,
            RequestFromClient::ListPrompts => RequestView::ListPrompts,
            RequestFromClient::GetPrompt => RequestView::GetPrompt,
            RequestFromClient::ListTools => RequestView::ListTools,
            RequestFromClient::CallTool(name, arguments) => RequestView::CallTool(
                name@,
                arguments_of(*arguments),
            ),
            RequestFromClient::SetLevel => RequestView::SetLevel,
            RequestFromClient::Complete => RequestView::Complete,
            RequestFromClient::Custom => RequestView::Custom,
        }
    }
}

impl View for ClientJsonrpcRequest {
    type V = ClientRequestView;

    open spec fn view(&self) -> ClientRequestView {
        ClientRequestView { id: self.id@, request: self.request@ }
    }
}

impl View for ClientMessage {
    type V = ClientMessageView;

    open spec fn view(&self) -> ClientMessageView {
        match self {
            ClientMessage::Request(request) => ClientMessageView::Request(request@),
            ClientMessage::Notification => ClientMessageView::Notification,
            ClientMessage::Response(id) => ClientMessageView::Response(id@),
            ClientMessage::Error(id) => ClientMessageView::Error(id@),
        }
    }
}

/// The message of a client that a JSON text is, and `None` for a text that is no
/// such message.
pub uninterp spec fn client_message(text: Seq<char>) -> Option<ClientMessageView>;

#[derive(Debug)]
pub struct ServerCapabilitiesPrompts {
    pub list_changed: Option<bool>,
}

#[derive(Debug)]
pub struct ServerCapabilitiesResources {
    pub list_changed: Option<bool>,
    pub subscribe: Option<bool>,
}

#[derive(Debug)]
pub struct ServerCapabilitiesTools {
    pub list_changed: Option<bool>,
}

/// What a server offers.
#[derive(Debug)]
pub struct ServerCapabilities {
    pub experimental: Option<Vec<(String, serde_json::Map<String, Value>)>>,
    pub logging: Option<serde_json::Map<String, Value>>,
    pub prompts: Option<ServerCapabilitiesPrompts>,
    pub resources: Option<ServerCapabilitiesResources>,
    pub tools: Option<ServerCapabilitiesTools>,
}

/// The server's side of the opening of a conversation.
#[derive(Debug)]
pub struct InitializeResult {
    pub capabilities: ServerCapabilities,
    pub instructions: Option<String>,
    pub protocol_version: String,
    pub server_info: Implementation,
}

/// Something that a client can read.
#[derive(Debug)]
pub struct Resource {
    pub name: String,
    pub uri: String,
    pub description: Option<String>,
    pub mime_type: Option<String>,
    pub size: Option<i64>,
}

#[derive(Debug)]
pub struct ListResourcesResult {
    pub next_cursor: Option<String>,
    pub resources: Vec<Resource>,
}

#[derive(Debug)]
pub struct TextResourceContents {
    pub mime_type: Option<String>,
    pub text: String,
    pub uri: String,
}

#[derive(Debug)]
pub struct ReadResourceResult {
    pub contents: Vec<TextResourceContents>,
}

/// The parameters that a tool takes: each with a description of it, and those
/// that a call must give.
#[derive(Debug)]
pub struct ToolInputSchema {
    pub properties: Option<Vec<(String, serde_json::Map<String, Value>)>>,
    pub required: Vec<String>,
}

#[derive(Debug)]
pub struct Tool {
    pub description: Option<String>,
    pub input_schema: ToolInputSchema,
    pub name: String,
}

#[derive(Debug)]
pub struct ListToolsResult {
    pub next_cursor: Option<String>,
    pub tools: Vec<Tool>,
}

#[derive(Debug)]
pub struct TextContent {
    pub text: String,
}

#[derive(Debug)]
pub struct CallToolResult {
    pub content: Vec<TextContent>,
    pub is_error: Option<bool>,
}

/// What a server answers a request with.
#[derive(Debug)]
pub enum ResultFromServer {
    Empty,
    Initialize(InitializeResult),
    ListResources(ListResourcesResult),
    ReadResource(ReadResourceResult),
    ListTools(ListToolsResult),
    CallTool(CallToolResult),
}

/// Why a request got no result.
#[derive(Debug)]
pub struct JsonrpcErrorError {
    pub code: i64,
    pub message: String,
    pub data: Option<Value>,
}

/// What a server tells its clients without being asked.
#[derive(Debug)]
pub struct NotificationFromServer {
    pub method: String,
    pub params: Option<Value>,
}

#[derive(Debug)]
pub struct ServerJsonrpcRequest {
    pub id: RequestId,
    pub request: RequestFromServer,
}

#[derive(Debug)]
pub struct ServerJsonrpcNotification {
    pub notification: NotificationFromServer,
}

#[derive(Debug)]
pub struct ServerJsonrpcResponse {
    pub id: RequestId,
    pub result: ResultFromServer,
}

#[derive(Debug)]
pub struct JsonrpcError {
    pub id: RequestId,
    pub error: JsonrpcErrorError,
}

/// A message of a server.
#[derive(Debug)]
pub enum ServerMessage {
    Request(ServerJsonrpcRequest),
    Notification(ServerJsonrpcNotification),
    Response(ServerJsonrpcResponse),
    Error(JsonrpcError),
}

impl JsonrpcErrorError {
    /// The error has this code and this message, and no further data.
    pub open spec fn says(self, code: int, message: Seq<char>) -> bool {
        &&& self.code == code
        &&& self.message@ == message
        &&& self.data is None
    }
}

impl ServerMessage {
    /// The message answers the request `id`, with a result or with an error.
    pub open spec fn answers(self, id: RequestIdView) -> bool {
        match self {
            ServerMessage::Response(response) => response.id@ == id,
            ServerMessage::Error(error) => error.id@ == id,
            ServerMessage::Request(_) => false,
            ServerMessage::Notification(_) => false,
        }
    }

    /// The message refuses the request `id` with this code and this text.
    pub open spec fn refuses(self, id: RequestIdView, code: int, message: Seq<char>) -> bool {
        self matches ServerMessage::Error(error) && error.id@ == id && error.error.says(
            code,
            message,
        )
    }
}

/// `message` is what `decoded` is but for the id, and neither is there without
/// the other.
spec fn is_unnumbered(
    decoded: Result<Unnumbered, serde_json::Error>,
    message: Option<ClientMessageView>,
) -> bool {
    match decoded {
        Ok(Unnumbered::Request(request)) => {
            message matches Some(ClientMessageView::Request(it)) && it.request == request@
        },
        Ok(Unnumbered::Notification) => message matches Some(ClientMessageView::Notification),
        Ok(Unnumbered::Response) => message matches Some(ClientMessageView::Response(_)),
        Ok(Unnumbered::Error) => message matches Some(ClientMessageView::Error(_)),
        Err(_) => message is None,
    }
}

/// `decoded` is the id of `message`, and neither is there without the other.
spec fn is_id(
    decoded: Result<Option<RequestId>, serde_json::Error>,
    message: Option<ClientMessageView>,
) -> bool {
    match decoded {
        Ok(Some(id)) => message matches Some(it) && it.id() == Some(id@),
        Ok(None) => message matches Some(it) && it.id() is None,
        Err(_) => message is None,
    }
}

/// `serde_json::from_str` into the `ClientMessage` of `rust_mcp_schema`, with
/// what the server looks at taken out of it: all but the id of the message that
/// [`client_message`] names.
#[verifier::external_body]
fn decode_client_message(text: &str) -> (decoded: Result<Unnumbered, serde_json::Error>)
    ensures
        is_unnumbered(decoded, client_message(text@)),
{
    Ok(match serde_json::from_str(text)? {
        Wire::Request(it) => Unnumbered::Request(match it.request {
            Standard(it) => match it {
                InitializeRequest(it) => Initialize(it.params.protocol_version),
                PingRequest(_) => Ping, ListResourcesRequest(_) => ListResources,
                ListResourceTemplatesRequest(_) => ListResourceTemplates,
                ReadResourceRequest(it) => ReadResource(it.params.uri),
                SubscribeRequest(_) => Subscribe, UnsubscribeRequest(_) => Unsubscribe,
                ListPromptsRequest(_) => ListPrompts, GetPromptRequest(_) => GetPrompt,
                ListToolsRequest(_) => ListTools, SetLevelRequest(_) => SetLevel,
                CallToolRequest(it) => CallTool(it.params.name, it.params.arguments),
                CompleteRequest(_) => Complete,
            }, CustomRequest(_) => Custom }),
        Wire::Notification(_) => Unnumbered::Notification,
        Wire::Response(_) => Unnumbered::Response, Wire::Error(_) => Unnumbered::Error })
}

/// `serde_json::from_str` into the `ClientMessage` of `rust_mcp_schema`, and of
/// that `request_id`: the id of the message that [`client_message`] names.
#[verifier::external_body]
fn decode_request_id(text: &str) -> (decoded: Result<Option<RequestId>, serde_json::Error>)
    ensures
        is_id(decoded, client_message(text@)),
{
    let message: Wire = serde_json::from_str(text)?;
    Ok(match message.request_id() {
        Some(WireId::String(text)) => Some(RequestId::String(text.clone())),
        Some(WireId::Integer(number)) => Some(RequestId::Integer(*number)),
        None => None,
    })
}

/// A text was no message of a client.
#[derive(Debug, Clone, Copy, PartialEq, Eq, Structural)]
pub struct InvalidMessage;

impl ClientMessage {
    /// The message of a client that a JSON text is.
    pub fn parse(text: &str) -> (message: Result<ClientMessage, InvalidMessage>)
        ensures
            match client_message(text@) {
                Some(expected) => message matches Ok(message) && message@ == expected,
                None => message is Err,
            },
    {
        let decoded = match decode_client_message(text) {
            Ok(decoded) => decoded,
            Err(_) => {
                return Err(InvalidMessage);
            },
        };
        let id = match decode_request_id(text) {
            Ok(id) => id,
            Err(_) => {
                return Err(InvalidMessage);
            },
        };
        match (decoded, id) {
            (Unnumbered::Request(request), Some(id)) => Ok(
                ClientMessage::Request(ClientJsonrpcRequest { id, request }),
            ),
            (Unnumbered::Notification, None) => Ok(ClientMessage::Notification),
            (Unnumbered::Response, Some(id)) => Ok(ClientMessage::Response(id)),
            (Unnumbered::Error, Some(id)) => Ok(ClientMessage::Error(id)),
            _ => Err(InvalidMessage),
        }
    }
}

/// `serde_json::Map::new`: an object without members.
#[verifier::external_body]
pub(crate) fn empty_object() -> (object: serde_json::Map<String, Value>)
    ensures
        object_entries(object).dom() == Set::<Seq<char>>::empty(),
{
    serde_json::Map::new()
}

/// `serde_json::Map::insert` of a JSON string: the member `key` is then that
/// text, whatever it was before, and every other member is as it was.
#[verifier::external_body]
pub(crate) fn insert_text(
    object: &mut serde_json::Map<String, Value>,
    key: String,
    text: String,
)
    ensures
        object_entries(*final(object)) == object_entries(*old(object)).insert(
            key@,
            MemberView::String(text@),
        ),
{
    object.insert(key, Value::String(text));
}

/// `serde_json::Map::remove`: takes the member `key` out, where there is one.
#[verifier::external_body]
pub(crate) fn remove_member(
    object: &mut serde_json::Map<String, Value>,
    key: &str,
) -> (member: Option<Member>)
    ensures
        object_entries(*final(object)) == object_entries(*old(object)).remove(key@),
        member is Some <==> object_entries(*old(object)).dom().contains(key@),
        member matches Some(member) ==> object_entries(*old(object))[key@] == member@,
{
    object.remove(key).map(
        |value| match value {
            Value::Null => Member::Null,
            Value::Bool(_) => Member::Bool,
            Value::Number(_) => Member::Number,
            Value::String(text) => Member::String(text),
            Value::Array(_) => Member::Array,
            Value::Object(_) => Member::Object,
        },
    )
}

/// `JsonrpcErrorError::new` with the code `RpcErrorCodes::INTERNAL_ERROR` and
/// without data: the message is the one that is given.
#[verifier::external_body]
pub(crate) fn internal_error(message: String) -> (error: JsonrpcErrorError)
    ensures
        error.says(INTERNAL_ERROR as int, message@),
{
    let code = RpcErrorCodes::INTERNAL_ERROR;
    let error = rust_mcp_schema::JsonrpcErrorError::new(code, message, None);
    JsonrpcErrorError { code: error.code, message: error.message, data: error.data }
}

/// `JsonrpcErrorError::invalid_params`: says "Invalid params".
#[verifier::external_body]
pub(crate) fn invalid_params() -> (error: JsonrpcErrorError)
    ensures
        error.says(INVALID_PARAMS as int, "Invalid params"@),
{
    let error = rust_mcp_schema::JsonrpcErrorError::invalid_params();
    JsonrpcErrorError { code: error.code, message: error.message, data: error.data }
}

/// `JsonrpcErrorError::method_not_found`: says "Method not found".
#[verifier::external_body]
pub(crate) fn method_not_found() -> (error: JsonrpcErrorError)
    ensures
        error.says(METHOD_NOT_FOUND as int, "Method not found"@),
{
    let error = rust_mcp_schema::JsonrpcErrorError::method_not_found();
    JsonrpcErrorError { code: error.code, message: error.message, data: error.data }
}

/// `ResourceListChangedNotification::new` without parameters: has its method, and
/// no parameters.
#[verifier::external_body]
pub(crate) fn resource_list_changed() -> (notification: NotificationFromServer)
    ensures
        notification.method@ == "notifications/resources/list_changed"@,
        notification.params is None,
{
    let notification = rust_mcp_schema::ResourceListChangedNotification::new(None);
    NotificationFromServer { method: notification.method().clone(), params: None }
}

/// An id keeps what it is: a text stays that text and a number that number.
pub proof fn law_ids_keep_what_they_are(id: RequestId)
    ensures
        id matches RequestId::String(text) ==> id@ == RequestIdView::String(text@),
        id matches RequestId::Integer(number) ==> id@ == RequestIdView::Integer(number),
{
}

/// What a client asks for is told apart, with what it asks for it by: no request
/// stands for another one.
pub proof fn law_requests_keep_what_they_ask_for(request: RequestFromClient)
    ensures
        request matches RequestFromClient::Initialize(version) ==> request@
            == RequestView::Initialize(version@),
        request matches RequestFromClient::ReadResource(uri) ==> request@
            == RequestView::ReadResource(uri@),
        request matches RequestFromClient::CallTool(name, Some(arguments)) ==> request@
            == RequestView::CallTool(name@, object_entries(arguments)),
        request matches RequestFromClient::CallTool(name, None) ==> (
        request@ matches RequestView::CallTool(called, arguments) && called == name@
            && forall|key: Seq<char>| !(#[trigger] arguments.dom().contains(key))),
        request is Ping <==> request@ is Ping,
        request is ListResources <==> request@ is ListResources,
        request is ListResourceTemplates <==> request@ is ListResourceTemplates,
        request is Subscribe <==> request@ is Subscribe,
        request is Unsubscribe <==> request@ is Unsubscribe,
        request is ListPrompts <==> request@ is ListPrompts,
        request is GetPrompt <==> request@ is GetPrompt,
        request is ListTools <==> request@ is ListTools,
        request is SetLevel <==> request@ is SetLevel,
        request is Complete <==> request@ is Complete,
        request is Custom <==> request@ is Custom,
{
}

/// A message keeps its kind, and a request its id and what it asks for.
pub proof fn law_messages_keep_what_they_are(message: ClientMessage)
    ensures
        message matches ClientMessage::Request(request) ==> (
        message@ matches ClientMessageView::Request(it) && it.id == request.id@ && it.request
            == request.request@),
        message is Notification <==> message@ is Notification,
        message matches ClientMessage::Response(id) ==> message@ == ClientMessageView::Response(
            id@,
        ),
        message matches ClientMessage::Error(id) ==> message@ == ClientMessageView::Error(id@),
{
}

/// A call without arguments has none, and one with arguments has those.
pub proof fn law_arguments_are_those_given(arguments: Option<serde_json::Map<String, Value>>)
    ensures
        arguments matches Some(object) ==> arguments_of(arguments) == object_entries(object),
        arguments is None ==> forall|key: Seq<char>| !(#[trigger] arguments_of(
            arguments,
        ).dom().contains(key)),
{
}

/// A member of an object keeps its kind, and a text what it says.
pub proof fn law_members_keep_what_they_are(member: Member)
    ensures
        member matches Member::String(text) ==> member@ == MemberView::String(text@),
        member is String <==> member@ is String,
        member is Null <==> member@ is Null,
        member is Bool <==> member@ is Bool,
        member is Number <==> member@ is Number,
        member is Array <==> member@ is Array,
        member is Object <==> member@ is Object,
{
}

/// A message answers the one request whose id it has, and only a response or an
/// error does.
pub proof fn law_answers_have_the_id_of_the_request(message: ServerMessage, id: RequestIdView)
    ensures
        message matches ServerMessage::Response(response) ==> (message.answers(id)
            <==> response.id@ == id),
        message matches ServerMessage::Error(error) ==> (message.answers(id) <==> error.id@ == id),
        message is Request ==> !message.answers(id),
        message is Notification ==> !message.answers(id),
{
}

/// A refusal is an error message for the request, with the code and the words that
/// it is said to have and nothing more.
pub proof fn law_refusals_say_what_they_are_said_to(
    message: ServerMessage,
    id: RequestIdView,
    code: int,
    words: Seq<char>,
)
    ensures
        message.refuses(id, code, words) <==> (message matches ServerMessage::Error(error) && {
            &&& error.id@ == id
            &&& error.error.code == code
            &&& error.error.message@ == words
            &&& error.error.data is None
        }),
{
}

/// A message has the id of the request that it makes or answers, and a notification
/// has none.
pub proof fn law_messages_have_the_id_of_their_request(message: ClientMessageView)
    ensures
        message matches ClientMessageView::Request(request) ==> message.id() == Some(request.id),
        message matches ClientMessageView::Response(id) ==> message.id() == Some(id),
        message matches ClientMessageView::Error(id) ==> message.id() == Some(id),
        message is Notification <==> message.id() is None,
{
}

} // verus!
