//! Conversation types, report helpers and the provider-independent
//! Anthropic logic.

use agent_core::anthropic::{
    calculate_cost_micros, convert_messages, finish_reason_from, handle_error,
    max_context_tokens, parse_stream_event, AnthropicAdapterBuilder,
};
use agent_core::llm::{FinishReason, LLMRequest, LlmError, Message, MessageRole, TokenUsage};
use agent_core::report::{format_number, parse_lookback_ms, truncate_content, truncate_string};

#[test]
fn test_message_constructors() {
    let system = Message::system("You are helpful".to_string());
    assert_eq!(system.role, MessageRole::System);
    assert_eq!(system.content, "You are helpful");

    let user = Message::user("Hello".to_string());
    assert_eq!(user.role, MessageRole::User);

    let assistant = Message::assistant("Hi there".to_string());
    assert_eq!(assistant.role, MessageRole::Assistant);

    let tool = Message::tool("result".to_string(), "call_123".to_string());
    assert_eq!(tool.role, MessageRole::Tool);
    assert_eq!(tool.tool_call_id, Some("call_123".to_string()));
}

#[test]
fn test_llm_request_builder() {
    let request = LLMRequest::new(
        "m-3-5-sonnet-20241022".to_string(),
        vec![Message::user("Hello".to_string())],
    )
        .with_temperature(700)
        .with_max_tokens(1024)
        .with_streaming(true);

    assert_eq!(request.model, "m-3-5-sonnet-20241022");
    assert_eq!(request.temperature_milli, Some(700));
    assert_eq!(request.max_tokens, Some(1024));
    assert!(request.stream);
}

#[test]
fn test_token_usage() {
    let usage = TokenUsage::new(100, 50).with_cost(3_000);

    assert_eq!(usage.input_tokens, 100);
    assert_eq!(usage.output_tokens, 50);
    assert_eq!(usage.total_tokens, 150);
    assert_eq!(usage.cost_micros, Some(3_000));
}

#[test]
fn test_cost_calculation() {
    // One million input tokens of the middle tier cost three dollars.
    assert_eq!(
        calculate_cost_micros(1_000_000, 0, "m-3-5-sonnet-20241022"),
        3_000_000
    );
    // One million output tokens cost fifteen dollars.
    assert_eq!(
        calculate_cost_micros(0, 1_000_000, "m-3-5-sonnet-20241022"),
        15_000_000
    );
    assert_eq!(calculate_cost_micros(1_000_000, 0, "m-3-opus"), 15_000_000);
    assert_eq!(calculate_cost_micros(1_000_000, 0, "m-3-haiku"), 250_000);
    // Unknown models fall back to the middle tier.
    assert_eq!(calculate_cost_micros(1_000_000, 0, "mystery"), 3_000_000);
}

#[test]
fn test_message_conversion() {
    let messages = vec![
        Message::system("be brief".to_string()),
        Message::user("hi".to_string()),
        Message::assistant("hello".to_string()),
        Message::tool("4".to_string(), "call_1".to_string()),
    ];
    let (system, converted) = convert_messages(&messages);

    assert_eq!(system.as_deref(), Some("be brief"));
    assert_eq!(converted.len(), 3);
    assert_eq!(converted[0].role, "user");
    assert_eq!(converted[0].content, "hi");
    assert_eq!(converted[1].role, "assistant");
    assert_eq!(converted[2].role, "user");
    assert_eq!(converted[2].content, "Tool result: 4");
}

#[test]
fn finish_reasons_map_from_wire_text() {
    assert_eq!(
        finish_reason_from(&Some("end_turn".to_string())),
        FinishReason::Stop
    );
    assert_eq!(
        finish_reason_from(&Some("max_tokens".to_string())),
        FinishReason::Length
    );
    assert_eq!(
        finish_reason_from(&Some("stop_sequence".to_string())),
        FinishReason::Stop
    );
    assert_eq!(finish_reason_from(&Some("other".to_string())), FinishReason::Other);
    assert_eq!(finish_reason_from(&None), FinishReason::Other);
}

#[test]
fn api_errors_classify_by_status() {
    assert!(matches!(
        handle_error(401, "denied".to_string()),
        LlmError::Authentication(_)
    ));
    assert!(matches!(
        handle_error(429, String::new()),
        LlmError::RateLimited { retry_after_secs: None }
    ));
    assert!(matches!(
        handle_error(400, "bad".to_string()),
        LlmError::InvalidRequest(_)
    ));
    match handle_error(500, "oops".to_string()) {
        LlmError::Api { status, message } => {
            assert_eq!(status, 500);
            assert_eq!(message, "oops");
        },
        other => panic!("expected an API error, got {:?}", other),
    }
}

#[test]
fn context_windows_by_family() {
    assert_eq!(max_context_tokens("m-3-5-sonnet"), 200_000);
    assert_eq!(max_context_tokens("m-2.1"), 100_000);
    assert_eq!(max_context_tokens("unknown"), 200_000);
}

#[test]
fn stream_events_become_chunks() {
    let chunk = parse_stream_event(
        "content_block_delta",
        "{\"delta\":{\"text\":\"hel\"}}",
    )
        .unwrap();
    assert_eq!(chunk.content, "hel");
    assert!(!chunk.is_final);

    let done = parse_stream_event("message_stop", "{}").unwrap();
    assert!(done.is_final);
    assert_eq!(done.finish_reason, Some(FinishReason::Stop));

    assert!(parse_stream_event("ping", "{}").is_none());
    assert!(parse_stream_event("message_delta", "{\"delta\":{}}").is_none());
}

#[test]
fn anthropic_builder_defaults_and_requirements() {
    let settings = AnthropicAdapterBuilder::new()
        .api_key("test-key".to_string())
        .build()
        .unwrap();
    assert_eq!(settings.base_url, "https://api.anthropic.com");
    assert_eq!(settings.timeout_secs, 120);

    let custom = AnthropicAdapterBuilder::new()
        .api_key("test-key".to_string())
        .base_url("https://proxy.test".to_string())
        .timeout(30)
        .build()
        .unwrap();
    assert_eq!(custom.base_url, "https://proxy.test");
    assert_eq!(custom.timeout_secs, 30);

    assert!(matches!(
        AnthropicAdapterBuilder::new().build(),
        Err(LlmError::InvalidRequest(_))
    ));
}

#[test]
fn truncate_string_cleans_and_cuts() {
    assert_eq!(truncate_string("short", 10), "short");
    assert_eq!(truncate_string("line one\nline two", 100), "line one line two");
    assert_eq!(truncate_string("abcdefghij", 8), "abcde...");
}

#[test]
fn format_number_groups_thousands() {
    assert_eq!(format_number(0), "0");
    assert_eq!(format_number(999), "999");
    assert_eq!(format_number(1_000), "1,000");
    assert_eq!(format_number(1_234_567), "1,234,567");
}

#[test]
fn lookback_expressions_scale_to_milliseconds() {
    assert_eq!(parse_lookback_ms("7d").unwrap(), 7 * 86_400_000);
    assert_eq!(parse_lookback_ms("24h").unwrap(), 24 * 3_600_000);
    assert_eq!(parse_lookback_ms("30m").unwrap(), 30 * 60_000);
    assert_eq!(parse_lookback_ms(" 1H ").unwrap(), 3_600_000);
    assert!(parse_lookback_ms("7w").is_err());
    assert!(parse_lookback_ms("d").is_err());
}

#[test]
fn content_truncation_marks_the_cut() {
    assert_eq!(truncate_content("short", 100), "short");
    let long = "x".repeat(50);
    let cut = truncate_content(&long, 20);
    assert_eq!(cut, format!("{}[TRUNCATED]", "x".repeat(8)));
    // A zero bound means the default of four thousand bytes.
    assert_eq!(truncate_content(&long, 0), long);
}

#[test]
fn llm_error_messages_name_the_cause() {
    assert_eq!(
        LlmError::Http("down".to_string()).message(),
        "LLM HTTP error: down"
    );
    assert_eq!(
        LlmError::Authentication("bad key".to_string()).message(),
        "LLM authentication error: bad key"
    );
}
