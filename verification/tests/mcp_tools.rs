use otel_worker::commands::mcp::tools::{
    handle_tool_call, handle_tool_call_get_trace, handle_tools_list, GetTraceParams,
    InvalidParameters, ToolCall,
};
use serde_json::Value;

#[test]
fn the_schema_describes_the_one_parameter() {
    let schema = GetTraceParams::tool_input_schema();
    assert_eq!(schema.required, vec!["trace_id".to_string()]);
    let properties = schema.properties.unwrap();
    assert_eq!(properties.len(), 1);
    let (name, description) = &properties[0];
    assert_eq!(name, "trace_id");
    assert_eq!(description.len(), 2);
    assert_eq!(description["type"].as_str(), Some("string"));
    assert_eq!(
        description["description"].as_str(),
        Some("The value of the trace it to retrieve")
    );
}

#[test]
fn the_parameters_are_taken_out_of_the_arguments() {
    let mut arguments = serde_json::Map::new();
    arguments.insert("trace_id".to_string(), Value::String("0a0B".to_string()));
    let params = GetTraceParams::try_from(Some(arguments)).unwrap();
    assert_eq!(params.trace_id.as_str(), "0a0B");
}

#[test]
fn other_arguments_are_refused() {
    assert!(matches!(GetTraceParams::try_from(None), Err(InvalidParameters)));
    let empty = Some(serde_json::Map::new());
    assert!(matches!(GetTraceParams::try_from(empty), Err(InvalidParameters)));
    for value in [
        Value::Null,
        Value::Bool(false),
        Value::Number(7.into()),
        Value::Array(Vec::new()),
        Value::Object(serde_json::Map::new()),
        Value::String("0a0".to_string()),
    ] {
        let mut arguments = serde_json::Map::new();
        arguments.insert("trace_id".to_string(), value);
        assert!(matches!(GetTraceParams::try_from(Some(arguments)), Err(InvalidParameters)));
    }
    assert_eq!(InvalidParameters.message(), "Invalid parameters were provided");
}

#[test]
fn a_tool_is_known_by_its_name_alone() {
    let tools = handle_tools_list().tools;
    assert_eq!(tools.len(), 1);
    let call = handle_tool_call(tools[0].name.clone(), None);
    assert!(matches!(call, ToolCall::InvalidParams));
    let call = handle_tool_call("Get_Trace".to_string(), None);
    assert!(matches!(call, ToolCall::MethodNotFound));
}

#[test]
fn a_trace_is_one_text() {
    let result = handle_tool_call_get_trace(Ok("{}".to_string())).unwrap();
    assert_eq!(result.content.len(), 1);
    assert_eq!(result.content[0].text, "{}");
    let error = handle_tool_call_get_trace(Err("gone".to_string())).unwrap_err();
    assert_eq!(error.message(), "gone");
}
