//! The executor, its builder and the tool factory.

use std::cell::RefCell;

use agent_core::config::{
    AgentConfig, DatabaseToolConfig, ExecutionConfig, HttpToolConfig, LLMConfig, ToolConfig,
};
use agent_core::context::StopReason;
use agent_core::error::RuntimeError;
use agent_core::executor::{
    parse_timeout_secs, stop_reason_of, AgentExecutor, AgentExecutorBuilder, BuiltinTool,
    ToolFactory, ToolPlan,
};
use agent_core::llm::{
    Clock, FinishReason, LLMRequest, LLMResponse, LlmClient, LlmError, MessageRole, TokenUsage,
};
use agent_core::strategy::ReActStrategy;
use agent_core::tools::ToolRegistry;

struct ScriptedLlm {
    replies: RefCell<Vec<String>>,
}

impl ScriptedLlm {
    fn new(replies: Vec<&str>) -> ScriptedLlm {
        ScriptedLlm {
            replies: RefCell::new(replies.into_iter().map(|s| s.to_string()).collect()),
        }
    }
}

impl LlmClient for ScriptedLlm {
    fn provider_name(&self) -> String {
        "scripted".to_string()
    }

    fn generate(&self, _request: &LLMRequest) -> Result<LLMResponse, LlmError> {
        let mut replies = self.replies.borrow_mut();
        if replies.is_empty() {
            return Err(LlmError::Unknown("script exhausted".to_string()));
        }
        Ok(LLMResponse {
            content: replies.remove(0),
            role: MessageRole::Assistant,
            tool_calls: None,
            usage: TokenUsage::new(8, 2),
            finish_reason: FinishReason::Stop,
        })
    }

    fn estimate_cost(&self, _input: u32, _output: u32, _model: &str) -> Option<u64> {
        Some(42)
    }

    fn max_context_tokens(&self, _model: &str) -> Option<u32> {
        Some(200_000)
    }
}

struct FixedClock(u64);

impl Clock for FixedClock {
    fn now_millis(&self) -> u64 {
        self.0
    }
}

fn make_config() -> AgentConfig {
    AgentConfig {
        name: "test".to_string(),
        version: "1.0.0".to_string(),
        description: None,
        metadata: Vec::new(),
        llm: LLMConfig {
            provider: "anthropic".to_string(),
            model: "m-3-5-sonnet-20241022".to_string(),
            temperature_milli: 700,
            max_tokens: 4096,
            top_p_milli: None,
            stream: true,
            retry: None,
        },
        tools: Vec::new(),
        memory: None,
        middleware: None,
        execution: ExecutionConfig::default(),
        system_prompt: "test".to_string(),
        tenancy: None,
    }
}

#[test]
fn executor_test_builder_creation() {
    let builder: AgentExecutorBuilder<ScriptedLlm, BuiltinTool, ReActStrategy> =
        AgentExecutorBuilder::new();
    assert!(builder.config.is_none());
    assert!(builder.llm.is_none());
    assert!(builder.strategy.is_none());
}

#[test]
fn builder_reports_missing_parts_in_order() {
    let builder: AgentExecutorBuilder<ScriptedLlm, BuiltinTool, ReActStrategy> =
        AgentExecutorBuilder::new();
    match builder.build() {
        Err(RuntimeError::ConfigError(m)) => assert_eq!(m, "Missing agent config"),
        Err(other) => panic!("expected config error, got {:?}", other),
        Ok(_) => panic!("expected config error, got an executor"),
    }

    let builder: AgentExecutorBuilder<ScriptedLlm, BuiltinTool, ReActStrategy> =
        AgentExecutorBuilder::new();
    match builder.config(make_config()).build() {
        Err(RuntimeError::ConfigError(m)) => assert_eq!(m, "Missing LLM adapter"),
        Err(other) => panic!("expected adapter error, got {:?}", other),
        Ok(_) => panic!("expected adapter error, got an executor"),
    }

    let builder: AgentExecutorBuilder<ScriptedLlm, BuiltinTool, ReActStrategy> =
        AgentExecutorBuilder::new();
    match builder.config(make_config()).llm(ScriptedLlm::new(vec![])).build() {
        Err(RuntimeError::ConfigError(m)) => assert_eq!(m, "Missing execution strategy"),
        Err(other) => panic!("expected strategy error, got {:?}", other),
        Ok(_) => panic!("expected strategy error, got an executor"),
    }
}

#[test]
fn test_factory_creation() {
    let factory = ToolFactory::new();
    let config = make_config();
    assert!(factory.build_tools(&config).is_ok());
}

#[test]
fn test_parse_timeout() {
    let factory = ToolFactory::new();

    assert_eq!(factory.parse_timeout("30s").unwrap(), 30_000);
    assert_eq!(factory.parse_timeout("1000ms").unwrap(), 1_000);
    assert_eq!(factory.parse_timeout("60").unwrap(), 60_000);
}

#[test]
fn executor_timeout_text_parses_to_seconds() {
    assert_eq!(parse_timeout_secs("30s").unwrap(), 30);
    assert_eq!(parse_timeout_secs("1500ms").unwrap(), 1);
    assert_eq!(parse_timeout_secs("45").unwrap(), 45);
    assert!(matches!(
        parse_timeout_secs("soon"),
        Err(RuntimeError::ConfigError(_))
    ));
    assert!(matches!(
        parse_timeout_secs(""),
        Err(RuntimeError::ConfigError(_))
    ));
}

#[test]
fn test_build_generic_tools() {
    let config = make_config();
    let factory = ToolFactory::new();
    let (tools, plans) = factory.build_tools(&config).unwrap();

    assert!(tools.get("calculator").is_some());
    assert!(tools.get("string").is_some());
    assert_eq!(tools.len(), 2);
    assert!(plans.is_empty());
}

#[test]
fn factory_plans_configured_http_tool() {
    let factory = ToolFactory::new();
    let tool = ToolConfig::BuiltinHttp {
        name: "weather".to_string(),
        config: HttpToolConfig {
            url: "https://example.test/api".to_string(),
            method: "GET".to_string(),
            headers: vec![("X-Key".to_string(), "abc".to_string())],
            auth: None,
            timeout: "5s".to_string(),
            retry: false,
        },
    };
    match factory.plan_tool(&tool).unwrap() {
        ToolPlan::Http { name, url, method, headers, timeout_ms } => {
            assert_eq!(name, "weather");
            assert_eq!(url, "https://example.test/api");
            assert_eq!(method, "GET");
            assert_eq!(headers.len(), 1);
            assert_eq!(timeout_ms, 5_000);
        },
        other => panic!("expected an HTTP plan, got {:?}", other),
    }
}

#[test]
fn factory_rejects_unavailable_tool_kinds() {
    let factory = ToolFactory::new();
    let tool = ToolConfig::BuiltinDatabase {
        name: "db".to_string(),
        config: DatabaseToolConfig {
            connection: "c".to_string(),
            connection_string: "cs".to_string(),
            query_type: "select".to_string(),
            max_rows: None,
        },
    };
    match factory.plan_tool(&tool) {
        Err(RuntimeError::ConfigError(m)) => {
            assert_eq!(m, "Database tool 'db' not yet implemented")
        },
        other => panic!("expected config error, got {:?}", other),
    }
}

#[test]
fn stop_reasons_map_from_errors() {
    assert_eq!(
        stop_reason_of(&RuntimeError::MaxIterationsReached(5)),
        StopReason::MaxIterations
    );
    assert_eq!(stop_reason_of(&RuntimeError::Timeout(30)), StopReason::Timeout);
    assert_eq!(
        stop_reason_of(&RuntimeError::ToolNotFound("foo".to_string())),
        StopReason::Error("Tool not found: foo".to_string())
    );
}

#[test]
fn executor_completes_a_run() {
    let config = make_config();
    let factory = ToolFactory::new();
    let (tools, _plans) = factory.build_tools(&config).unwrap();
    let executor = AgentExecutor::new_with_clock(
        config,
        ScriptedLlm::new(vec!["TOOL: calculator(2+2)", "ANSWER: 4"]),
        tools,
        ReActStrategy::new(),
        FixedClock(0),
    );

    let result = executor.execute("what is 2+2?").unwrap();
    assert!(result.success);
    assert_eq!(result.response, "4");
    assert_eq!(result.iterations, 2);
    assert_eq!(result.stop_reason, StopReason::Completed);
    assert_eq!(result.tool_calls.len(), 1);
    assert_eq!(result.thoughts.len(), 2);
    assert_eq!(result.id.len(), 36);
}

#[test]
fn executor_maps_bound_exhaustion_to_its_own_stop() {
    let mut config = make_config();
    config.execution.max_iterations = 1;
    let factory = ToolFactory::new();
    let (tools, _plans) = factory.build_tools(&config).unwrap();
    let executor = AgentExecutor::new_with_clock(
        config,
        ScriptedLlm::new(vec!["TOOL: calculator(2+2)", "TOOL: calculator(2+2)"]),
        tools,
        ReActStrategy::new(),
        FixedClock(0),
    );

    let result = executor.execute("loop forever").unwrap();
    assert!(!result.success);
    assert_eq!(result.stop_reason, StopReason::MaxIterations);
    assert_eq!(result.iterations, 1);
    // The partial work is preserved on the failed result.
    assert_eq!(result.tool_calls.len(), 1);
    assert_eq!(result.thoughts.len(), 1);
}

#[test]
fn executor_rejects_bad_timeout_text() {
    let mut config = make_config();
    config.execution.timeout = "whenever".to_string();
    let factory = ToolFactory::new();
    let (tools, _plans) = factory.build_tools(&config).unwrap();
    let executor = AgentExecutor::new_with_clock(
        config,
        ScriptedLlm::new(vec![]),
        tools,
        ReActStrategy::new(),
        FixedClock(0),
    );
    assert!(matches!(
        executor.execute("x"),
        Err(RuntimeError::ConfigError(_))
    ));
}

#[test]
fn runtime_error_messages() {
    assert_eq!(
        RuntimeError::MaxIterationsReached(10).message(),
        "Max iterations reached: 10"
    );
    assert_eq!(
        RuntimeError::Timeout(30).message(),
        "Execution timeout after 30s"
    );
    assert_eq!(
        RuntimeError::InvalidToolCall("nope".to_string()).message(),
        "Invalid tool call: nope"
    );
}
