//! The tools of the MCP server.
use super::error::HandlerError;
use super::messages::{
    arguments_of, empty_object, insert_text, object_entries, remove_member, CallToolResult,
    ListToolsResult, Member, MemberView, TextContent, Tool, ToolInputSchema,
};
use crate::data::{is_hex_encoded, HexEncodedId};
use crate::text::str_eq;
use serde_json::Value;
use vstd::prelude::*;

verus! {

/// The parameters of a call are not those that the tool takes.
#[derive(Debug, Clone, Copy, PartialEq, Eq, Structural)]
pub struct InvalidParameters;

impl InvalidParameters {
    /// The error in words.
    pub fn message(&self) -> (message: String)
        ensures
            message@ == "Invalid parameters were provided"@,
    {
        "Invalid parameters were provided".to_owned()
    }
}

/// Parameters associated with the "get_trace" tool.
#[derive(Debug)]
pub struct GetTraceParams {
    pub trace_id: HexEncodedId,
}

/// The trace that a call of "get_trace" with these arguments is about: the text
/// that stands under "trace_id", where it is a hex encoded id.
pub open spec fn wanted_trace(arguments: Map<Seq<char>, MemberView>) -> Option<Seq<char>> {
    if !arguments.dom().contains("trace_id"@) {
        None
    } else {
        match arguments["trace_id"@] {
            MemberView::String(text) => if is_hex_encoded(text) {
                Some(text)
            } else {
                None
            },
            _ => None,
        }
    }
}

/// What is said of the parameter "trace_id".
pub open spec fn trace_id_property() -> Map<Seq<char>, MemberView> {
    Map::<Seq<char>, MemberView>::empty().insert("type"@, MemberView::String("string"@)).insert(
        "description"@,
        MemberView::String("The value of the trace it to retrieve"@),
    )
}

/// The schema takes one parameter, "trace_id", a text, and a call must give it.
pub open spec fn takes_trace_id(schema: ToolInputSchema) -> bool {
    &&& schema.properties matches Some(properties) && {
        &&& properties@.len() == 1
        &&& properties@[0].0@ == "trace_id"@
        &&& object_entries(properties@[0].1) == trace_id_property()
    }
    &&& schema.required@.len() == 1
    &&& schema.required@[0]@ == "trace_id"@
}

impl GetTraceParams {
    /// What the tool "get_trace" takes.
    pub fn tool_input_schema() -> (schema: ToolInputSchema)
        ensures
            takes_trace_id(schema),
    {
        let mut trace_id_props = empty_object();
        insert_text(&mut trace_id_props, "type".to_owned(), "string".to_owned());
        insert_text(
            &mut trace_id_props,
            "description".to_owned(),
            "The value of the trace it to retrieve".to_owned(),
        );
        proof {
            assert(object_entries(trace_id_props) =~= trace_id_property());
        }
        let mut properties: Vec<(String, serde_json::Map<String, Value>)> = Vec::new();
        properties.push(("trace_id".to_owned(), trace_id_props));
        let mut required: Vec<String> = Vec::new();
        required.push("trace_id".to_owned());
        ToolInputSchema { properties: Some(properties), required }
    }

    /// The parameters that the arguments of a call come to.
    pub fn try_from(arguments: Option<serde_json::Map<String, Value>>) -> (params: Result<
        GetTraceParams,
        InvalidParameters,
    >)
        ensures
            match wanted_trace(arguments_of(arguments)) {
                Some(trace_id) => params matches Ok(params) && params.trace_id@ == trace_id,
                None => params is Err,
            },
    {
        let mut object = match arguments {
            Some(object) => object,
            None => {
                return Err(InvalidParameters);
            },
        };
        match remove_member(&mut object, "trace_id") {
            Some(Member::String(text)) => match HexEncodedId::parse(text) {
                Ok(trace_id) => Ok(GetTraceParams { trace_id }),
                Err(_) => Err(InvalidParameters),
            },
            Some(_) => Err(InvalidParameters),
            None => Err(InvalidParameters),
        }
    }
}

/// The tool is "get_trace".
pub open spec fn is_get_trace(tool: Tool) -> bool {
    &&& tool.name@ == "get_trace"@
    &&& tool.description matches Some(text) && text@ == "Retrieve the raw trace for a single trace"@
    &&& takes_trace_id(tool.input_schema)
}

/// The tools that there are, on one page: "get_trace" alone.
pub open spec fn lists_tools(result: ListToolsResult) -> bool {
    &&& result.next_cursor is None
    &&& result.tools@.len() == 1
    &&& is_get_trace(result.tools@[0])
}

/// The tools that there are.
pub fn handle_tools_list() -> (result: ListToolsResult)
    ensures
        lists_tools(result),
{
    let tool = Tool {
        description: Some("Retrieve the raw trace for a single trace".to_owned()),
        input_schema: GetTraceParams::tool_input_schema(),
        name: "get_trace".to_owned(),
    };
    let mut tools: Vec<Tool> = Vec::new();
    tools.push(tool);
    ListToolsResult { next_cursor: None, tools }
}

/// What becomes of the call of a tool.
#[derive(Debug)]
pub enum ToolCall {
    /// The trace is fetched.
    GetTrace(GetTraceParams),
    /// The tool does not take these arguments.
    InvalidParams,
    /// There is no such tool.
    MethodNotFound,
}

/// What becomes of the call of a tool: only "get_trace" is known.
pub open spec fn tool_called(
    call: ToolCall,
    name: Seq<char>,
    arguments: Map<Seq<char>, MemberView>,
) -> bool {
    if name == "get_trace"@ {
        match wanted_trace(arguments) {
            Some(trace_id) => call matches ToolCall::GetTrace(params) && params.trace_id@
                == trace_id,
            None => call is InvalidParams,
        }
    } else {
        call is MethodNotFound
    }
}

/// What becomes of the call of a tool.
pub fn handle_tool_call(name: String, arguments: Option<serde_json::Map<String, Value>>) -> (call:
    ToolCall)
    ensures
        tool_called(call, name@, arguments_of(arguments)),
{
    if !str_eq(name.as_str(), "get_trace") {
        return ToolCall::MethodNotFound;
    }
    match GetTraceParams::try_from(arguments) {
        Ok(params) => ToolCall::GetTrace(params),
        Err(_) => ToolCall::InvalidParams,
    }
}

/// The result is this text and nothing else, and no error.
pub open spec fn is_text(result: CallToolResult, text: Seq<char>) -> bool {
    &&& result.content@.len() == 1
    &&& result.content@[0].text@ == text
    &&& result.is_error is None
}

/// What the tool "get_trace" answers, once the trace is there as JSON. A failure
/// of the API is passed on in its own words.
pub fn handle_tool_call_get_trace(trace: Result<String, String>) -> (result: Result<
    CallToolResult,
    HandlerError,
>)
    ensures
        match trace {
            Ok(json) => result matches Ok(result) && is_text(result, json@),
            Err(text) => result == Err::<CallToolResult, HandlerError>(
                HandlerError::Upstream(text),
            ),
        },
{
    match trace {
        Ok(json) => {
            let mut content: Vec<TextContent> = Vec::new();
            content.push(TextContent { text: json });
            Ok(CallToolResult { content, is_error: None })
        },
        Err(text) => Err(HandlerError::Upstream(text)),
    }
}

/// The trace that a call is about is the one that it names, in a text that is hex
/// encoded, and a call that names none so is about none.
pub proof fn law_call_is_about_the_trace_it_names(
    arguments: Map<Seq<char>, MemberView>,
    trace_id: Seq<char>,
)
    ensures
        wanted_trace(arguments) == Some(trace_id) <==> (arguments.contains_pair(
            "trace_id"@,
            MemberView::String(trace_id),
        ) && is_hex_encoded(trace_id)),
{
}

/// There is one tool. It has its name and its description, takes one parameter that
/// is a text, says what it is, and requires it.
pub proof fn law_the_tool_is_described(result: ListToolsResult)
    requires
        lists_tools(result),
    ensures
        result.tools@.len() == 1,
        result.next_cursor is None,
        result.tools@[0].name@ == "get_trace"@,
        result.tools@[0].description matches Some(text) && text@
            == "Retrieve the raw trace for a single trace"@,
        result.tools@[0].input_schema.required@.len() == 1,
        result.tools@[0].input_schema.required@[0]@ == "trace_id"@,
        result.tools@[0].input_schema.properties matches Some(properties) && {
            &&& properties@.len() == 1
            &&& properties@[0].0@ == "trace_id"@
            &&& object_entries(properties@[0].1).contains_pair(
                "type"@,
                MemberView::String("string"@),
            )
            &&& object_entries(properties@[0].1).contains_pair(
                "description"@,
                MemberView::String("The value of the trace it to retrieve"@),
            )
            &&& forall|key: Seq<char>| #[trigger]
                object_entries(properties@[0].1).dom().contains(key) ==> key == "type"@ || key
                    == "description"@
        },
{
    law_schema_has_one_required_text(result.tools@[0].input_schema);
}

/// The schema takes one parameter that is a text, says what it is, and requires it.
pub proof fn law_schema_has_one_required_text(schema: ToolInputSchema)
    requires
        takes_trace_id(schema),
    ensures
        schema.required@.len() == 1,
        schema.required@[0]@ == "trace_id"@,
        schema.properties matches Some(properties) && {
            &&& properties@.len() == 1
            &&& properties@[0].0@ == "trace_id"@
            &&& object_entries(properties@[0].1).contains_pair(
                "type"@,
                MemberView::String("string"@),
            )
            &&& object_entries(properties@[0].1).contains_pair(
                "description"@,
                MemberView::String("The value of the trace it to retrieve"@),
            )
            &&& forall|key: Seq<char>| #[trigger]
                object_entries(properties@[0].1).dom().contains(key) ==> key == "type"@ || key
                    == "description"@
        },
{
    reveal_strlit("type");
    reveal_strlit("description");
    assert("type"@.len() != "description"@.len());
}

/// A call fetches a trace if and only if it is one of "get_trace" with a hex encoded
/// id, and then that trace. With other arguments it is refused for these, and under
/// another name for that.
pub proof fn law_calls_are_taken_by_name_and_arguments(
    call: ToolCall,
    name: Seq<char>,
    arguments: Map<Seq<char>, MemberView>,
)
    requires
        tool_called(call, name, arguments),
    ensures
        call is MethodNotFound <==> name != "get_trace"@,
        call matches ToolCall::GetTrace(params) ==> {
            &&& arguments.contains_pair("trace_id"@, MemberView::String(params.trace_id@))
            &&& is_hex_encoded(params.trace_id@)
        },
        call is InvalidParams ==> forall|trace_id: Seq<char>|
            is_hex_encoded(trace_id) ==> !#[trigger] arguments.contains_pair(
                "trace_id"@,
                MemberView::String(trace_id),
            ),
{
}

/// A result that is one text is that text and no error.
pub proof fn law_text_result_is_that_text(result: CallToolResult, text: Seq<char>)
    requires
        is_text(result, text),
    ensures
        result.content@.map_values(|content: TextContent| content.text@) == seq![text],
        result.is_error is None,
{
}

} // verus!
