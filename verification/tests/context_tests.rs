//! The execution context: counters, accumulators and append-only trails.

use agent_core::context::{ExecutionContext, ExecutionResult, StopReason};
use agent_core::llm::{Message, MessageRole, TokenUsage};

#[test]
fn test_context_creation() {
    let ctx = ExecutionContext::new(10, 60_000);
    assert_eq!(ctx.iteration, 0);
    assert_eq!(ctx.max_iterations, 10);
    assert_eq!(ctx.messages.len(), 0);
}

#[test]
fn test_iteration_increment() {
    let mut ctx = ExecutionContext::new(10, 60_000);
    assert_eq!(ctx.iteration, 0);

    ctx.increment_iteration();
    assert_eq!(ctx.iteration, 1);

    ctx.increment_iteration();
    assert_eq!(ctx.iteration, 2);
}

#[test]
fn test_max_iterations_check() {
    let mut ctx = ExecutionContext::new(2, 60_000);
    assert!(!ctx.is_max_iterations_reached());

    ctx.increment_iteration();
    assert!(!ctx.is_max_iterations_reached());

    ctx.increment_iteration();
    assert!(ctx.is_max_iterations_reached());
}

#[test]
fn test_token_tracking() {
    let mut ctx = ExecutionContext::new(10, 60_000);
    assert_eq!(ctx.total_tokens(), 0);

    ctx.add_tokens(&TokenUsage::new(100, 50));
    assert_eq!(ctx.total_tokens(), 150);

    ctx.add_tokens(&TokenUsage::new(200, 100));
    assert_eq!(ctx.total_tokens(), 450);
}

#[test]
fn test_cost_tracking() {
    let mut ctx = ExecutionContext::new(10, 60_000);
    assert_eq!(ctx.total_cost_micros, 0);

    ctx.add_cost(1_000);
    assert_eq!(ctx.total_cost_micros, 1_000);

    ctx.add_cost(2_000);
    assert_eq!(ctx.total_cost_micros, 3_000);
}

#[test]
fn accumulators_never_decrease() {
    let mut ctx = ExecutionContext::new(10, 60_000);
    let mut last_tokens = ctx.total_tokens();
    let mut last_cost = ctx.total_cost_micros;
    let additions = vec![(0u32, 0u32, 0u64), (5, 1, 10), (0, 7, 0), (1000, 1000, 999)];
    for (input, output, cost) in additions {
        ctx.add_tokens(&TokenUsage::new(input, output));
        ctx.add_cost(cost);
        assert!(ctx.total_tokens() >= last_tokens);
        assert!(ctx.total_cost_micros >= last_cost);
        last_tokens = ctx.total_tokens();
        last_cost = ctx.total_cost_micros;
    }
}

#[test]
fn total_tokens_is_running_sum() {
    let mut ctx = ExecutionContext::new(10, 60_000);
    let usages = vec![(3u32, 4u32), (10, 0), (0, 25), (7, 7)];
    let mut expected: u64 = 0;
    for (input, output) in usages {
        ctx.add_tokens(&TokenUsage::new(input, output));
        expected += input as u64 + output as u64;
        assert_eq!(ctx.total_tokens(), expected);
    }
}

#[test]
fn trails_preserve_append_order() {
    let mut ctx = ExecutionContext::new(10, 60_000);
    ctx.record_thought("first".to_string());
    ctx.record_thought("second".to_string());
    ctx.record_thought("third".to_string());
    assert_eq!(ctx.thoughts, vec!["first", "second", "third"]);

    ctx.add_message(Message::system("a".to_string()));
    ctx.add_message(Message::user("b".to_string()));
    assert_eq!(ctx.messages.len(), 2);
    assert_eq!(ctx.messages[0].role, MessageRole::System);
    assert_eq!(ctx.messages[1].role, MessageRole::User);
    assert_eq!(ctx.messages[1].content, "b");
}

#[test]
fn timed_out_at_respects_anchor() {
    let mut ctx = ExecutionContext::new(10, 1_000);
    ctx.started_at_ms = 5_000;
    assert!(!ctx.timed_out_at(5_000));
    assert!(!ctx.timed_out_at(5_999));
    assert!(ctx.timed_out_at(6_000));
    // A reading before the anchor counts as no elapsed time.
    assert!(!ctx.timed_out_at(0));
}

#[test]
fn run_identifiers_are_fresh() {
    let a = ExecutionContext::new(1, 1);
    let b = ExecutionContext::new(1, 1);
    assert_eq!(a.id.len(), 36);
    assert_eq!(b.id.len(), 36);
    assert_ne!(a.id, b.id);
}

#[test]
fn result_success_constructor() {
    let r = ExecutionResult::success(
        "run-1".to_string(),
        "42".to_string(),
        3,
        Vec::new(),
        150,
        2_000,
        500,
        vec!["step".to_string()],
    );
    assert!(r.success);
    assert_eq!(r.response, "42");
    assert_eq!(r.iterations, 3);
    assert_eq!(r.stop_reason, StopReason::Completed);
    assert_eq!(r.thoughts, vec!["step"]);
}

#[test]
fn result_failure_constructor() {
    let r = ExecutionResult::failure(
        "run-2".to_string(),
        "boom".to_string(),
        1,
        Vec::new(),
        10,
        5,
        20,
        Vec::new(),
    );
    assert!(!r.success);
    assert_eq!(r.response, "");
    assert_eq!(r.stop_reason, StopReason::Error("boom".to_string()));
}
