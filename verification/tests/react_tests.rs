//! The ReAct parser and loop, driven by scripted models and clocks.

use std::cell::RefCell;

use agent_core::config::{AgentConfig, ExecutionConfig, LLMConfig};
use agent_core::context::ExecutionContext;
use agent_core::error::RuntimeError;
use agent_core::llm::{
    Clock, FinishReason, LLMRequest, LLMResponse, LlmClient, LlmError, MessageRole, TokenUsage,
};
use agent_core::strategy::ReActStrategy;
use agent_core::tools::{CalculatorTool, ToolRegistry};

struct ScriptedLlm {
    replies: RefCell<Vec<String>>,
}

impl ScriptedLlm {
    fn new(replies: Vec<&str>) -> ScriptedLlm {
        ScriptedLlm {
            replies: RefCell::new(replies.into_iter().map(|s| s.to_string()).collect()),
        }
    }
}

impl LlmClient for ScriptedLlm {
    fn provider_name(&self) -> String {
        "scripted".to_string()
    }

    fn generate(&self, _request: &LLMRequest) -> Result<LLMResponse, LlmError> {
        let mut replies = self.replies.borrow_mut();
        if replies.is_empty() {
            return Err(LlmError::Unknown("script exhausted".to_string()));
        }
        let content = replies.remove(0);
        Ok(LLMResponse {
            content,
            role: MessageRole::Assistant,
            tool_calls: None,
            usage: TokenUsage::new(10, 5),
            finish_reason: FinishReason::Stop,
        })
    }

    fn estimate_cost(&self, input_tokens: u32, output_tokens: u32, _model: &str) -> Option<u64> {
        Some((input_tokens as u64) * 3 + (output_tokens as u64) * 15)
    }

    fn max_context_tokens(&self, _model: &str) -> Option<u32> {
        Some(200_000)
    }
}

struct FixedClock(u64);

impl Clock for FixedClock {
    fn now_millis(&self) -> u64 {
        self.0
    }
}

struct SteppingClock {
    times: RefCell<Vec<u64>>,
    last: RefCell<u64>,
}

impl SteppingClock {
    fn new(times: Vec<u64>) -> SteppingClock {
        SteppingClock { times: RefCell::new(times), last: RefCell::new(0) }
    }
}

impl Clock for SteppingClock {
    fn now_millis(&self) -> u64 {
        let mut times = self.times.borrow_mut();
        if times.is_empty() {
            *self.last.borrow()
        } else {
            let t = times.remove(0);
            *self.last.borrow_mut() = t;
            t
        }
    }
}

fn make_config() -> AgentConfig {
    AgentConfig {
        name: "test_agent".to_string(),
        version: "1.0.0".to_string(),
        description: None,
        metadata: Vec::new(),
        llm: LLMConfig {
            provider: "anthropic".to_string(),
            model: "m-3-5-sonnet-20241022".to_string(),
            temperature_milli: 700,
            max_tokens: 4096,
            top_p_milli: None,
            stream: false,
            retry: None,
        },
        tools: Vec::new(),
        memory: None,
        middleware: None,
        execution: ExecutionConfig::default(),
        system_prompt: "You are a helpful assistant.".to_string(),
        tenancy: None,
    }
}

fn calculator_registry() -> ToolRegistry<CalculatorTool> {
    let mut tools = ToolRegistry::new();
    tools.insert("calculator".to_string(), CalculatorTool::new());
    tools
}

fn fresh_context(max_iterations: u32, timeout_ms: u64) -> ExecutionContext {
    let mut ctx = ExecutionContext::new(max_iterations, timeout_ms);
    ctx.started_at_ms = 0;
    ctx
}

#[test]
fn react_test_extract_tool_call() {
    let strategy = ReActStrategy::new();

    let response = "I need to calculate. TOOL: calculator(2 + 2)";
    let result = strategy.extract_tool_call(response);
    assert!(result.is_some());
    let (tool, arg) = result.unwrap();
    assert_eq!(tool, "calculator");
    assert_eq!(arg, "2 + 2");

    let response = "The answer is 4";
    let result = strategy.extract_tool_call(response);
    assert!(result.is_none());
}

#[test]
fn react_test_is_final_answer() {
    let strategy = ReActStrategy::new();

    assert!(strategy.is_final_answer("ANSWER: The result is 4"));
    assert!(strategy.is_final_answer("The result is 4"));
    assert!(!strategy.is_final_answer("I need to use TOOL: calculator(2+2)"));
}

#[test]
fn react_test_extract_answer() {
    let strategy = ReActStrategy::new();

    let response = "ANSWER: The result is 4";
    assert_eq!(strategy.extract_answer(response), "The result is 4");

    let response = "The result is 4";
    assert_eq!(strategy.extract_answer(response), "The result is 4");
}

#[test]
fn react_parses_malformed_marker_as_no_call() {
    let strategy = ReActStrategy::new();
    assert!(strategy.extract_tool_call("TOOL: calculator without parens").is_none());
    assert!(strategy.extract_tool_call("TOOL: oops) then (later").is_none());
}

#[test]
fn scenario_answer_on_first_iteration() {
    let strategy = ReActStrategy::new();
    let llm = ScriptedLlm::new(vec!["ANSWER: 42"]);
    let tools = calculator_registry();
    let clock = FixedClock(0);
    let mut ctx = fresh_context(10, 60_000);
    let config = make_config();

    let result = strategy.run(&config, &llm, &tools, &clock, &mut ctx);

    assert_eq!(result.unwrap(), "42");
    assert_eq!(ctx.iteration, 1);
    assert_eq!(ctx.thoughts.len(), 1);
    assert_eq!(ctx.tool_calls.len(), 0);
}

#[test]
fn scenario_tool_then_answer() {
    let strategy = ReActStrategy::new();
    let llm = ScriptedLlm::new(vec!["TOOL: calculator(2+2)", "ANSWER: 4"]);
    let tools = calculator_registry();
    let clock = FixedClock(0);
    let mut ctx = fresh_context(10, 60_000);
    let config = make_config();

    let result = strategy.run(&config, &llm, &tools, &clock, &mut ctx);

    assert_eq!(result.unwrap(), "4");
    assert_eq!(ctx.iteration, 2);
    assert_eq!(ctx.tool_calls.len(), 1);
    assert_eq!(ctx.tool_calls[0].tool_name, "calculator");
    assert_eq!(ctx.tool_calls[0].output.as_deref(), Some("2+2 = 4"));
    assert!(ctx.tool_calls[0].success);
}

#[test]
fn scenario_unknown_tool_fails_without_record() {
    let strategy = ReActStrategy::new();
    let llm = ScriptedLlm::new(vec!["TOOL: foo(1)"]);
    let tools = calculator_registry();
    let clock = FixedClock(0);
    let mut ctx = fresh_context(10, 60_000);
    let config = make_config();

    let result = strategy.run(&config, &llm, &tools, &clock, &mut ctx);

    match result {
        Err(RuntimeError::ToolNotFound(name)) => assert_eq!(name, "foo"),
        other => panic!("expected ToolNotFound, got {:?}", other),
    }
    assert_eq!(ctx.tool_calls.len(), 0);
    assert_eq!(ctx.thoughts.len(), 1);
    assert_eq!(ctx.thoughts[0], "TOOL: foo(1)");
}

#[test]
fn scenario_max_iterations_after_one_call() {
    let strategy = ReActStrategy::new();
    let llm = ScriptedLlm::new(vec!["TOOL: calculator(1+1)", "TOOL: calculator(1+1)"]);
    let tools = calculator_registry();
    let clock = FixedClock(0);
    let mut ctx = fresh_context(1, 60_000);
    let config = make_config();

    let result = strategy.run(&config, &llm, &tools, &clock, &mut ctx);

    match result {
        Err(RuntimeError::MaxIterationsReached(n)) => assert_eq!(n, 1),
        other => panic!("expected MaxIterationsReached, got {:?}", other),
    }
    assert_eq!(ctx.iteration, 1);
    assert_eq!(ctx.thoughts.len(), 1);
}

#[test]
fn never_final_model_exhausts_bound_exactly() {
    let strategy = ReActStrategy::new();
    let llm = ScriptedLlm::new(vec![
        "TOOL: calculator(1+1)",
        "TOOL: calculator(2+2)",
        "TOOL: calculator(3+3)",
        "TOOL: calculator(4+4)",
    ]);
    let tools = calculator_registry();
    let clock = FixedClock(0);
    let mut ctx = fresh_context(3, 60_000);
    let config = make_config();

    let result = strategy.run(&config, &llm, &tools, &clock, &mut ctx);

    assert!(matches!(result, Err(RuntimeError::MaxIterationsReached(3))));
    assert_eq!(ctx.iteration, 3);
    assert_eq!(ctx.thoughts.len(), 3);
    assert_eq!(ctx.tool_calls.len(), 3);
}

#[test]
fn timeout_fires_at_iteration_boundary() {
    let strategy = ReActStrategy::new();
    let llm = ScriptedLlm::new(vec!["TOOL: calculator(1+1)", "ANSWER: late"]);
    let tools = calculator_registry();
    // Guard of iteration one at zero; the iteration's work runs long; the
    // guard of iteration two sees the timeout.
    let clock = SteppingClock::new(vec![0, 50, 60, 2_000]);
    let mut ctx = fresh_context(10, 1_000);
    let config = make_config();

    let result = strategy.run(&config, &llm, &tools, &clock, &mut ctx);

    assert!(matches!(result, Err(RuntimeError::Timeout(1))));
    assert_eq!(ctx.iteration, 1);
    assert_eq!(ctx.thoughts.len(), 1);
    assert_eq!(ctx.tool_calls.len(), 1);
}

#[test]
fn zero_timeout_stops_before_any_model_call() {
    let strategy = ReActStrategy::new();
    let llm = ScriptedLlm::new(vec!["ANSWER: never seen"]);
    let tools = calculator_registry();
    let clock = FixedClock(0);
    let mut ctx = fresh_context(10, 0);
    let config = make_config();

    let result = strategy.run(&config, &llm, &tools, &clock, &mut ctx);

    assert!(matches!(result, Err(RuntimeError::Timeout(0))));
    assert_eq!(ctx.iteration, 0);
    assert_eq!(ctx.thoughts.len(), 0);
}

#[test]
fn tool_marker_wins_over_answer_marker() {
    let strategy = ReActStrategy::new();

    // Parser level: both markers present, the tool call is still read.
    let both = "TOOL: calculator(2+3) ANSWER: 5";
    assert!(strategy.extract_tool_call(both).is_some());
    assert!(strategy.is_final_answer(both));

    // Loop level: the iteration with both markers acts instead of stopping.
    let llm = ScriptedLlm::new(vec![both, "ANSWER: done"]);
    let tools = calculator_registry();
    let clock = FixedClock(0);
    let mut ctx = fresh_context(10, 60_000);
    let config = make_config();

    let result = strategy.run(&config, &llm, &tools, &clock, &mut ctx);

    assert_eq!(result.unwrap(), "done");
    assert_eq!(ctx.iteration, 2);
    assert_eq!(ctx.tool_calls.len(), 1);
    assert_eq!(ctx.tool_calls[0].output.as_deref(), Some("2+3 = 5"));
}

#[test]
fn unreadable_action_is_invalid_tool_call() {
    let strategy = ReActStrategy::new();
    let llm = ScriptedLlm::new(vec!["TOOL: broken without parens"]);
    let tools = calculator_registry();
    let clock = FixedClock(0);
    let mut ctx = fresh_context(10, 60_000);
    let config = make_config();

    let result = strategy.run(&config, &llm, &tools, &clock, &mut ctx);

    assert!(matches!(result, Err(RuntimeError::InvalidToolCall(_))));
}

#[test]
fn model_failure_ends_run() {
    let strategy = ReActStrategy::new();
    let llm = ScriptedLlm::new(vec![]);
    let tools = calculator_registry();
    let clock = FixedClock(0);
    let mut ctx = fresh_context(10, 60_000);
    let config = make_config();

    let result = strategy.run(&config, &llm, &tools, &clock, &mut ctx);

    assert!(matches!(result, Err(RuntimeError::Llm(_))));
    assert_eq!(ctx.iteration, 1);
    assert_eq!(ctx.thoughts.len(), 0);
}

#[test]
fn accumulators_grow_with_each_call() {
    let strategy = ReActStrategy::new();
    let llm = ScriptedLlm::new(vec!["TOOL: calculator(2+2)", "ANSWER: 4"]);
    let tools = calculator_registry();
    let clock = FixedClock(0);
    let mut ctx = fresh_context(10, 60_000);
    let config = make_config();

    strategy.run(&config, &llm, &tools, &clock, &mut ctx).unwrap();

    // Two calls, ten input and five output tokens each.
    assert_eq!(ctx.total_input_tokens, 20);
    assert_eq!(ctx.total_output_tokens, 10);
    assert_eq!(ctx.total_tokens(), 30);
    // Each call costs 10 * 3 + 5 * 15 millionths.
    assert_eq!(ctx.total_cost_micros, 2 * (10 * 3 + 5 * 15));
}

#[test]
fn json_object_arguments_pass_through() {
    let strategy = ReActStrategy::new();
    let llm = ScriptedLlm::new(vec![
        "TOOL: calculator({\"expression\":\"2+2\"})",
        "ANSWER: 4",
    ]);
    let tools = calculator_registry();
    let clock = FixedClock(0);
    let mut ctx = fresh_context(10, 60_000);
    let config = make_config();

    let result = strategy.run(&config, &llm, &tools, &clock, &mut ctx);

    assert_eq!(result.unwrap(), "4");
    assert_eq!(ctx.tool_calls.len(), 1);
    assert_eq!(ctx.tool_calls[0].output.as_deref(), Some("2+2 = 4"));
    // The well-formed object went to the tool as structured data.
    assert_eq!(
        ctx.tool_calls[0].input.to_json_text(),
        "{\"expression\":\"2+2\"}"
    );
}

#[test]
fn malformed_object_arguments_fall_back_to_wrapping() {
    let strategy = ReActStrategy::new();
    let llm = ScriptedLlm::new(vec!["TOOL: calculator({broken)"]);
    let tools = calculator_registry();
    let clock = FixedClock(0);
    let mut ctx = fresh_context(10, 60_000);
    let config = make_config();

    let result = strategy.run(&config, &llm, &tools, &clock, &mut ctx);

    // The malformed payload is wrapped as a free-form field, so the
    // calculator sees no expression and reports invalid input.
    match result {
        Err(RuntimeError::Tool(e)) => {
            assert_eq!(e.message(), "Invalid input: Missing 'expression' field")
        },
        other => panic!("expected a tool error, got {:?}", other),
    }
}

#[test]
fn transcript_keeps_chronological_order() {
    let strategy = ReActStrategy::new();
    let llm = ScriptedLlm::new(vec!["TOOL: calculator(2+2)", "ANSWER: 4"]);
    let tools = calculator_registry();
    let clock = FixedClock(0);
    let mut ctx = fresh_context(10, 60_000);
    ctx.add_message(agent_core::llm::Message::system("be brief".to_string()));
    ctx.add_message(agent_core::llm::Message::user("what is 2+2?".to_string()));
    let config = make_config();

    strategy.run(&config, &llm, &tools, &clock, &mut ctx).unwrap();

    let roles: Vec<MessageRole> = ctx.messages.iter().map(|m| m.role).collect();
    assert_eq!(
        roles,
        vec![
            MessageRole::System,
            MessageRole::User,
            MessageRole::Assistant,
            MessageRole::User,
            MessageRole::Assistant,
        ]
    );
    assert_eq!(ctx.messages[3].content, "Tool Result from calculator: 2+2 = 4");
}

/// A tool that answers but flags its output as failed.
struct FlaggingTool;

impl agent_core::tools::Tool for FlaggingTool {
    fn name(&self) -> String {
        "flagging".to_string()
    }

    fn description(&self) -> String {
        "Always answers with a failure flag".to_string()
    }

    fn parameters(&self) -> String {
        "{\"type\":\"object\"}".to_string()
    }

    fn execute(
        &self,
        _input: &agent_core::tools::ToolInput,
    ) -> Result<agent_core::tools::ToolOutput, agent_core::tools::ToolError> {
        Ok(agent_core::tools::ToolOutput::failure("it went sideways".to_string(), 1))
    }
}

#[test]
fn flagged_tool_output_is_recorded_and_loop_continues() {
    let strategy = ReActStrategy::new();
    let llm = ScriptedLlm::new(vec!["TOOL: flagging(try it)", "ANSWER: moving on"]);
    let mut tools = ToolRegistry::new();
    tools.insert("flagging".to_string(), FlaggingTool);
    let clock = FixedClock(0);
    let mut ctx = fresh_context(10, 60_000);
    let config = make_config();

    let result = strategy.run(&config, &llm, &tools, &clock, &mut ctx);

    // The flagged output is recorded and observed; the run still reaches the
    // next iteration's answer.
    assert_eq!(result.unwrap(), "moving on");
    assert_eq!(ctx.iteration, 2);
    assert_eq!(ctx.tool_calls.len(), 1);
    assert!(!ctx.tool_calls[0].success);
    assert_eq!(ctx.tool_calls[0].output.as_deref(), Some("it went sideways"));
    assert_eq!(
        ctx.messages[ctx.messages.len() - 2].content,
        "Tool Result from flagging: it went sideways"
    );
}
