//! Stored run records, filters and statistics.

use agent_core::config::{AgentConfig, ExecutionConfig, LLMConfig};
use agent_core::context::{ExecutionResult, StopReason as RunStopReason, ToolCallRecord};
use agent_core::storage::{
    build_run_record, compute_stats, convert_stop_reason, filter_runs, RunFilter, RunRecord,
    RunStats, StopReason,
};
use agent_core::tools::ToolInput;

fn make_config() -> AgentConfig {
    AgentConfig {
        name: "test_agent".to_string(),
        version: "1.0.0".to_string(),
        description: None,
        metadata: Vec::new(),
        llm: LLMConfig {
            provider: "anthropic".to_string(),
            model: "m-3-sonnet".to_string(),
            temperature_milli: 700,
            max_tokens: 4096,
            top_p_milli: None,
            stream: false,
            retry: None,
        },
        tools: Vec::new(),
        memory: None,
        middleware: None,
        execution: ExecutionConfig::default(),
        system_prompt: String::new(),
        tenancy: None,
    }
}

fn make_record(id: &str, agent: &str, success: bool, started_at_ms: i64) -> RunRecord {
    RunRecord {
        id: id.to_string(),
        agent_name: agent.to_string(),
        agent_version: Some("1.0.0".to_string()),
        input_prompt: "Hello".to_string(),
        response: Some("Hi there!".to_string()),
        success,
        stop_reason: if success { StopReason::Completed } else { StopReason::Error },
        error_message: None,
        iterations: 1,
        total_tokens: 50,
        total_cost_micros: 1_000,
        execution_time_ms: 100,
        llm_provider: Some("anthropic".to_string()),
        llm_model: Some("m-3-sonnet".to_string()),
        started_at_ms,
        completed_at_ms: started_at_ms + 100,
        tool_calls: Vec::new(),
        thoughts: Vec::new(),
    }
}

#[test]
fn test_stop_reason_display() {
    assert_eq!(StopReason::Completed.to_string(), "completed");
    assert_eq!(StopReason::MaxIterations.to_string(), "max_iterations");
    assert_eq!(StopReason::Error.to_string(), "error");
}

#[test]
fn test_stop_reason_parse() {
    assert_eq!(
        StopReason::from_str("completed").unwrap(),
        StopReason::Completed
    );
    assert_eq!(
        StopReason::from_str("max_iterations").unwrap(),
        StopReason::MaxIterations
    );
}

#[test]
fn stop_reason_parse_rejects_unknown() {
    assert_eq!(
        StopReason::from_str("sideways"),
        Err("Unknown stop reason: sideways".to_string())
    );
}

#[test]
fn stop_reason_round_trip() {
    let reasons = vec![
        StopReason::Completed,
        StopReason::MaxIterations,
        StopReason::Timeout,
        StopReason::Error,
        StopReason::UserStop,
    ];
    for reason in reasons {
        assert_eq!(StopReason::from_str(&reason.to_string()).unwrap(), reason);
    }
}

#[test]
fn convert_stop_reason_drops_message_into_error_column() {
    assert_eq!(
        convert_stop_reason(&RunStopReason::Completed),
        StopReason::Completed
    );
    assert_eq!(
        convert_stop_reason(&RunStopReason::Error("boom".to_string())),
        StopReason::Error
    );
    assert_eq!(
        convert_stop_reason(&RunStopReason::MaxIterations),
        StopReason::MaxIterations
    );
}

#[test]
fn sequence_numbers_equal_indices() {
    let result = ExecutionResult {
        id: "run-1".to_string(),
        response: "4".to_string(),
        success: true,
        iterations: 3,
        tool_calls: vec![
            ToolCallRecord {
                tool_name: "calculator".to_string(),
                input: ToolInput::Wrapped {
                    field: "expression".to_string(),
                    value: "1+1".to_string(),
                },
                output: Some("1+1 = 2".to_string()),
                success: true,
                execution_time_ms: 5,
                timestamp_ms: 1_000,
            },
            ToolCallRecord {
                tool_name: "string".to_string(),
                input: ToolInput::Wrapped {
                    field: "input".to_string(),
                    value: "x".to_string(),
                },
                output: None,
                success: false,
                execution_time_ms: 7,
                timestamp_ms: 2_000,
            },
        ],
        total_tokens: 30,
        total_cost_micros: 120,
        execution_time_ms: 250,
        stop_reason: RunStopReason::Completed,
        thoughts: vec!["think one".to_string(), "think two".to_string()],
    };
    let record = build_run_record(&make_config(), "add it up", &result, 10_000);

    assert_eq!(record.id, "run-1");
    assert_eq!(record.agent_name, "test_agent");
    assert_eq!(record.input_prompt, "add it up");
    assert_eq!(record.started_at_ms, 10_000 - 250);
    assert_eq!(record.completed_at_ms, 10_000);
    assert_eq!(record.stop_reason, StopReason::Completed);
    assert!(record.error_message.is_none());

    assert_eq!(record.tool_calls.len(), 2);
    for (i, entry) in record.tool_calls.iter().enumerate() {
        assert_eq!(entry.sequence_number as usize, i);
        assert_eq!(entry.run_id, "run-1");
    }
    assert_eq!(record.tool_calls[0].tool_name, "calculator");
    assert_eq!(record.tool_calls[0].input, "{\"expression\":\"1+1\"}");
    assert_eq!(record.tool_calls[1].output, None);

    assert_eq!(record.thoughts.len(), 2);
    for (i, entry) in record.thoughts.iter().enumerate() {
        assert_eq!(entry.sequence_number as usize, i);
    }
    assert_eq!(record.thoughts[0].content, "think one");
}

#[test]
fn failed_run_keeps_error_message() {
    let result = ExecutionResult {
        id: "run-2".to_string(),
        response: String::new(),
        success: false,
        iterations: 1,
        tool_calls: Vec::new(),
        total_tokens: 10,
        total_cost_micros: 30,
        execution_time_ms: 40,
        stop_reason: RunStopReason::Error("Tool not found: foo".to_string()),
        thoughts: Vec::new(),
    };
    let record = build_run_record(&make_config(), "x", &result, 1_000);
    assert_eq!(record.stop_reason, StopReason::Error);
    assert_eq!(record.error_message.as_deref(), Some("Tool not found: foo"));
    assert!(!record.success);
}

#[test]
fn filters_match_on_every_bound() {
    let record = make_record("a", "alpha", true, 5_000);
    let all = RunFilter::default();
    assert!(all.matches(&record));

    let mut by_name = RunFilter::default();
    by_name.agent_name = Some("alpha".to_string());
    assert!(by_name.matches(&record));
    by_name.agent_name = Some("beta".to_string());
    assert!(!by_name.matches(&record));

    let mut by_success = RunFilter::default();
    by_success.success = Some(false);
    assert!(!by_success.matches(&record));

    let mut by_time = RunFilter::default();
    by_time.since_ms = Some(4_000);
    by_time.until_ms = Some(6_000);
    assert!(by_time.matches(&record));
    by_time.since_ms = Some(5_001);
    assert!(!by_time.matches(&record));
}

#[test]
fn filter_runs_windows_matches_in_order() {
    let records = vec![
        make_record("a", "alpha", true, 1_000),
        make_record("b", "beta", false, 2_000),
        make_record("c", "alpha", true, 3_000),
        make_record("d", "alpha", false, 4_000),
        make_record("e", "alpha", true, 5_000),
    ];
    let mut filter = RunFilter::default();
    filter.agent_name = Some("alpha".to_string());
    filter.success = Some(true);
    let kept = filter_runs(records.clone(), &filter);
    let ids: Vec<&str> = kept.iter().map(|r| r.id.as_str()).collect();
    assert_eq!(ids, vec!["a", "c", "e"]);

    filter.offset = Some(1);
    filter.limit = Some(1);
    let windowed = filter_runs(records, &filter);
    assert_eq!(windowed.len(), 1);
    assert_eq!(windowed[0].id, "c");
}

#[test]
fn stats_summarize_runs() {
    let mut fast = make_record("a", "alpha", true, 1_000);
    fast.execution_time_ms = 100;
    fast.total_tokens = 30;
    fast.total_cost_micros = 500;
    let mut slow = make_record("b", "alpha", false, 2_000);
    slow.execution_time_ms = 300;
    slow.total_tokens = 70;
    slow.total_cost_micros = 1_500;

    let stats = compute_stats(&vec![fast, slow]);
    assert_eq!(stats.total_runs, 2);
    assert_eq!(stats.successful_runs, 1);
    assert_eq!(stats.failed_runs, 1);
    assert_eq!(stats.total_tokens, 100);
    assert_eq!(stats.total_cost_micros, 2_000);
    assert_eq!(stats.avg_execution_time_ms, 200);
}

#[test]
fn stats_default_is_zeroed() {
    let stats = RunStats::default();
    assert_eq!(stats.total_runs, 0);
    assert_eq!(stats.avg_execution_time_ms, 0);
}
