//! The built-in calculator and string tools, tool inputs and the registry.

use agent_core::tools::{
    CalculatorTool, StringTool, Tool, ToolError, ToolInput, ToolOutput, ToolRegistry,
};

fn expression_input(text: &str) -> ToolInput {
    ToolInput::Wrapped { field: "expression".to_string(), value: text.to_string() }
}

#[test]
fn test_calculator_tool_name() {
    let tool = CalculatorTool::new();
    assert_eq!(tool.name(), "calculator");
}

#[test]
fn test_calculator_simple_operations() {
    let tool = CalculatorTool::new();
    assert_eq!(tool.evaluate("2+2").unwrap(), 4);
    assert_eq!(tool.evaluate("10-5").unwrap(), 5);
    assert_eq!(tool.evaluate("3*4").unwrap(), 12);
    assert_eq!(tool.evaluate("20/4").unwrap(), 5);
}

#[test]
fn test_calculator_with_spaces() {
    let tool = CalculatorTool::new();
    assert_eq!(tool.evaluate("2 + 2").unwrap(), 4);
    assert_eq!(tool.evaluate("10 - 5").unwrap(), 5);
}

#[test]
fn test_calculator_negative_numbers() {
    let tool = CalculatorTool::new();
    assert_eq!(tool.evaluate("-5").unwrap(), -5);
}

#[test]
fn test_calculator_execute() {
    let tool = CalculatorTool::new();
    let input = expression_input("25 * 4");

    let result = tool.execute(&input);
    assert!(result.is_ok());

    let output = result.unwrap();
    assert!(output.success);
    assert!(output.content.contains("100"));
    assert_eq!(output.content, "25 * 4 = 100");
}

#[test]
fn test_calculator_invalid_expression() {
    let tool = CalculatorTool::new();
    let input = expression_input("invalid");

    let result = tool.execute(&input);
    assert!(result.is_err());
}

#[test]
fn calculator_division_by_zero_fails() {
    let tool = CalculatorTool::new();
    assert!(tool.evaluate("5/0").is_err());
}

#[test]
fn calculator_missing_expression_field() {
    let tool = CalculatorTool::new();
    let input = ToolInput::Wrapped { field: "input".to_string(), value: "2+2".to_string() };
    match tool.execute(&input) {
        Err(ToolError::InvalidInput(m)) => assert_eq!(m, "Missing 'expression' field"),
        other => panic!("expected invalid input, got {:?}", other),
    }
}

#[test]
fn calculator_reads_structured_json_input() {
    let tool = CalculatorTool::new();
    let input = ToolInput::Structured("{\"expression\":\"6*7\"}".to_string());
    let output = tool.execute(&input).unwrap();
    assert_eq!(output.content, "6*7 = 42");
}

#[test]
fn test_string_tool_name() {
    let tool = StringTool::new();
    assert_eq!(tool.name(), "string");
}

fn string_op_input(operation: &str, text: &str) -> ToolInput {
    ToolInput::Structured(format!(
        "{{\"operation\":\"{}\",\"text\":\"{}\"}}",
        operation, text
    ))
}

#[test]
fn test_string_uppercase() {
    let tool = StringTool::new();
    let output = tool.execute(&string_op_input("uppercase", "hello world")).unwrap();
    assert!(output.success);
    assert_eq!(output.content, "HELLO WORLD");
    assert_eq!(
        output.metadata.as_deref(),
        Some("{\"operation\":\"uppercase\",\"input_length\":11,\"output_length\":11}")
    );
}

#[test]
fn test_string_lowercase() {
    let tool = StringTool::new();
    let output = tool.execute(&string_op_input("lowercase", "HELLO WORLD")).unwrap();
    assert_eq!(output.content, "hello world");
}

#[test]
fn test_string_reverse() {
    let tool = StringTool::new();
    let output = tool.execute(&string_op_input("reverse", "hello")).unwrap();
    assert_eq!(output.content, "olleh");
}

#[test]
fn test_string_length() {
    let tool = StringTool::new();
    let output = tool.execute(&string_op_input("length", "hello")).unwrap();
    assert_eq!(output.content, "5");
}

#[test]
fn test_string_trim() {
    let tool = StringTool::new();
    let output = tool.execute(&string_op_input("trim", "  hello world  ")).unwrap();
    assert_eq!(output.content, "hello world");
}

#[test]
fn test_string_replace() {
    let tool = StringTool::new();
    let input = ToolInput::Structured(
        "{\"operation\":\"replace\",\"text\":\"hello world\",\"find\":\"world\",\"replace_with\":\"Rust\"}"
            .to_string(),
    );
    let output = tool.execute(&input).unwrap();
    assert_eq!(output.content, "hello Rust");
}

#[test]
fn test_string_invalid_operation() {
    let tool = StringTool::new();
    let result = tool.execute(&string_op_input("invalid", "hello"));
    assert!(result.is_err());
    match tool.execute(&string_op_input("shout", "hello")) {
        Err(ToolError::InvalidInput(m)) => assert_eq!(m, "Unknown operation: shout"),
        other => panic!("expected invalid input, got {:?}", other),
    }
}

#[test]
fn test_tool_output_success() {
    let output = ToolOutput::success("Hello".to_string(), 100);
    assert!(output.success);
    assert_eq!(output.content, "Hello");
    assert_eq!(output.execution_time_ms, 100);
    assert!(output.metadata.is_none());
}

#[test]
fn test_tool_output_failure() {
    let output = ToolOutput::failure("Error".to_string(), 50);
    assert!(!output.success);
    assert_eq!(output.content, "Error");
    assert_eq!(output.execution_time_ms, 50);
}

#[test]
fn test_tool_output_with_metadata() {
    let metadata = "{\"status\":200}".to_string();
    let output = ToolOutput::success_with_metadata("OK".to_string(), metadata.clone(), 75);
    assert!(output.success);
    assert_eq!(output.content, "OK");
    assert_eq!(output.metadata, Some(metadata));
}

#[test]
fn registry_lookup_and_shadowing() {
    let mut registry: ToolRegistry<CalculatorTool> = ToolRegistry::new();
    assert_eq!(registry.len(), 0);
    assert!(registry.get("calculator").is_none());

    registry.insert("calculator".to_string(), CalculatorTool::new());
    assert!(registry.get("calculator").is_some());
    assert!(registry.get("other").is_none());
}

#[test]
fn tool_input_wraps_raw_text_as_json() {
    let input = ToolInput::Wrapped { field: "expression".to_string(), value: "2+2".to_string() };
    assert_eq!(input.to_json_text(), "{\"expression\":\"2+2\"}");

    let quoted = ToolInput::Wrapped {
        field: "input".to_string(),
        value: "say \"hi\"\n".to_string(),
    };
    assert_eq!(quoted.to_json_text(), "{\"input\":\"say \\\"hi\\\"\\n\"}");
}

#[test]
fn tool_input_field_lookup() {
    let wrapped = ToolInput::Wrapped { field: "expression".to_string(), value: "2+2".to_string() };
    assert_eq!(wrapped.get_string("expression").as_deref(), Some("2+2"));
    assert!(wrapped.get_string("other").is_none());

    let structured = ToolInput::Structured("{\"a\":\"x\",\"b\":3}".to_string());
    assert_eq!(structured.get_string("a").as_deref(), Some("x"));
    assert!(structured.get_string("b").is_none());
    assert!(structured.get_string("c").is_none());
}

#[test]
fn tool_error_messages() {
    assert_eq!(
        ToolError::NotFound("x".to_string()).message(),
        "Tool not found: x"
    );
    assert_eq!(
        ToolError::InvalidInput("bad".to_string()).message(),
        "Invalid input: bad"
    );
    assert_eq!(ToolError::Timeout(30).message(), "Timeout after 30s");
    assert_eq!(
        ToolError::PermissionDenied("no".to_string()).message(),
        "Permission denied: no"
    );
}

#[test]
fn timer_elapsed_is_clamped_at_zero() {
    let timer = agent_core::tools::ToolTimer { started_at_ms: 1_000 };
    assert_eq!(timer.elapsed_ms_at(1_250), 250);
    assert_eq!(timer.elapsed_ms_at(1_000), 0);
    assert_eq!(timer.elapsed_ms_at(500), 0);
}
