//! Run-scoped mutable state: the transcript, the iteration counter, the
//! token and cost accumulators, and the tool-call and thought audit trails.
//!
//! The trails are append-only: every operation here states that it only
//! pushes onto them, so the chronological order of recorded entries is the
//! order in which they happened.

use vstd::prelude::*;

use crate::llm::{current_time_millis, Message};
use crate::tools::ToolInput;

verus! {

/// Relies on `uuid::Uuid::new_v4` and its display: a fresh random identifier
/// in the hyphenated textual form, which is 36 characters long.
#[verifier::external_body]
pub(crate) fn fresh_run_id() -> (r: String)
    ensures
        r@.len() == 36,
{
    uuid::Uuid::new_v4().to_string()
}

/// `a + b` clamped at the top of `u64`.
pub open spec fn sat_add_u64(a: int, b: int) -> int {
    if a + b > u64::MAX {
        u64::MAX as int
    } else {
        a + b
    }
}

/// Immutable record of one tool invocation.
#[derive(Debug, Clone, PartialEq)]
pub struct ToolCallRecord {
    /// Name the tool was called under.
    pub tool_name: String,
    /// Input handed to the tool.
    pub input: ToolInput,
    /// The tool's output content, when it returned one.
    pub output: Option<String>,
    /// The success flag the tool reported.
    pub success: bool,
    /// How long the call took, in milliseconds.
    pub execution_time_ms: u64,
    /// Clock reading when the call started, in milliseconds.
    pub timestamp_ms: u64,
}

/// Mutable state of one run.
#[derive(Debug, Clone)]
pub struct ExecutionContext {
    /// Opaque run identifier.
    pub id: String,
    /// Ordered, append-only transcript.
    pub messages: Vec<Message>,
    /// Iterations run so far.
    pub iteration: u32,
    /// Bound on the iteration counter.
    pub max_iterations: u32,
    /// Cooperative timeout, in milliseconds.
    pub timeout_ms: u64,
    /// Clock reading when the run started, in milliseconds.
    pub started_at_ms: u64,
    /// Input tokens accumulated over all model calls.
    pub total_input_tokens: u64,
    /// Output tokens accumulated over all model calls.
    pub total_output_tokens: u64,
    /// Cost accumulated over all model calls, in millionths of a dollar.
    pub total_cost_micros: u64,
    /// Ordered, append-only tool-call audit trail.
    pub tool_calls: Vec<ToolCallRecord>,
    /// Ordered, append-only reasoning trail.
    pub thoughts: Vec<String>,
}

/// The fixed configuration of `post` is that of `pre`.
pub open spec fn same_config(pre: ExecutionContext, post: ExecutionContext) -> bool {
    &&& post.id == pre.id
    &&& post.max_iterations == pre.max_iterations
    &&& post.timeout_ms == pre.timeout_ms
    &&& post.started_at_ms == pre.started_at_ms
}

/// The counters of `post` are those of `pre`.
pub open spec fn same_counters(pre: ExecutionContext, post: ExecutionContext) -> bool {
    &&& post.iteration == pre.iteration
    &&& post.total_input_tokens == pre.total_input_tokens
    &&& post.total_output_tokens == pre.total_output_tokens
    &&& post.total_cost_micros == pre.total_cost_micros
}

/// The trails of `post` are those of `pre`.
pub open spec fn same_trails(pre: ExecutionContext, post: ExecutionContext) -> bool {
    &&& post.messages == pre.messages
    &&& post.tool_calls == pre.tool_calls
    &&& post.thoughts == pre.thoughts
}

impl ExecutionContext {
    /// Timed out at clock reading `now_ms`: the elapsed time has reached the
    /// timeout. A reading earlier than the start counts as no time elapsed.
    pub open spec fn spec_timed_out_at(self, now_ms: u64) -> bool {
        (if now_ms >= self.started_at_ms {
            now_ms - self.started_at_ms
        } else {
            0
        }) >= self.timeout_ms
    }

    /// A fresh context for one run: zeroed counters, empty trails, a fresh
    /// identifier, the clock anchored at the current reading.
    pub fn new(max_iterations: u32, timeout_ms: u64) -> (r: ExecutionContext)
        ensures
            r.iteration == 0,
            r.max_iterations == max_iterations,
            r.timeout_ms == timeout_ms,
            r.total_input_tokens == 0,
            r.total_output_tokens == 0,
            r.total_cost_micros == 0,
            r.messages@.len() == 0,
            r.tool_calls@.len() == 0,
            r.thoughts@.len() == 0,
            r.id@.len() == 36,
    {
        ExecutionContext {
            id: fresh_run_id(),
            messages: Vec::new(),
            iteration: 0,
            max_iterations,
            timeout_ms,
            started_at_ms: current_time_millis(),
            total_input_tokens: 0,
            total_output_tokens: 0,
            total_cost_micros: 0,
            tool_calls: Vec::new(),
            thoughts: Vec::new(),
        }
    }

    /// Appends a message to the transcript.
    pub fn add_message(&mut self, message: Message)
        ensures
            final (self).messages@ == old(self).messages@.push(message),
            final (self).tool_calls == old(self).tool_calls,
            final (self).thoughts == old(self).thoughts,
            same_config(*old(self), *final (self)),
            same_counters(*old(self), *final (self)),
    {
        self.messages.push(message);
    }

    /// Steps the iteration counter.
    pub fn increment_iteration(&mut self)
        requires
            old(self).iteration < u32::MAX,
        ensures
            final (self).iteration == old(self).iteration + 1,
            final (self).total_input_tokens == old(self).total_input_tokens,
            final (self).total_output_tokens == old(self).total_output_tokens,
            final (self).total_cost_micros == old(self).total_cost_micros,
            same_config(*old(self), *final (self)),
            same_trails(*old(self), *final (self)),
    {
        self.iteration = self.iteration + 1;
    }

    /// Whether the iteration counter has reached its bound.
    pub fn is_max_iterations_reached(&self) -> (r: bool)
        ensures
            r == (self.iteration >= self.max_iterations),
    {
        self.iteration >= self.max_iterations
    }

    /// Whether the run has timed out as of the clock reading `now_ms`.
    pub fn timed_out_at(&self, now_ms: u64) -> (r: bool)
        ensures
            r == self.spec_timed_out_at(now_ms),
    {
        let elapsed = if now_ms >= self.started_at_ms {
            now_ms - self.started_at_ms
        } else {
            0
        };
        elapsed >= self.timeout_ms
    }

    /// Whether the run has timed out, by the system clock.
    pub fn is_timed_out(&self) -> bool {
        self.timed_out_at(current_time_millis())
    }

    /// Accumulates one call's token usage. The totals never decrease, and
    /// grow by exactly the reported usage until they would overflow.
    pub fn add_tokens(&mut self, usage: &crate::llm::TokenUsage)
        ensures
            final (self).total_input_tokens == sat_add_u64(
                old(self).total_input_tokens as int,
                usage.input_tokens as int,
            ),
            final (self).total_output_tokens == sat_add_u64(
                old(self).total_output_tokens as int,
                usage.output_tokens as int,
            ),
            final (self).total_input_tokens >= old(self).total_input_tokens,
            final (self).total_output_tokens >= old(self).total_output_tokens,
            final (self).total_cost_micros == old(self).total_cost_micros,
            final (self).iteration == old(self).iteration,
            same_config(*old(self), *final (self)),
            same_trails(*old(self), *final (self)),
    {
        self.total_input_tokens = self.total_input_tokens.saturating_add(
            usage.input_tokens as u64,
        );
        self.total_output_tokens = self.total_output_tokens.saturating_add(
            usage.output_tokens as u64,
        );
    }

    /// Accumulates one call's estimated cost. The total never decreases, and
    /// grows by exactly the reported cost until it would overflow.
    pub fn add_cost(&mut self, cost_micros: u64)
        ensures
            final (self).total_cost_micros == sat_add_u64(
                old(self).total_cost_micros as int,
                cost_micros as int,
            ),
            final (self).total_cost_micros >= old(self).total_cost_micros,
            final (self).total_input_tokens == old(self).total_input_tokens,
            final (self).total_output_tokens == old(self).total_output_tokens,
            final (self).iteration == old(self).iteration,
            same_config(*old(self), *final (self)),
            same_trails(*old(self), *final (self)),
    {
        self.total_cost_micros = self.total_cost_micros.saturating_add(cost_micros);
    }

    /// Appends a record to the tool-call trail.
    pub fn record_tool_call(&mut self, record: ToolCallRecord)
        ensures
            final (self).tool_calls@ == old(self).tool_calls@.push(record),
            final (self).messages == old(self).messages,
            final (self).thoughts == old(self).thoughts,
            same_config(*old(self), *final (self)),
            same_counters(*old(self), *final (self)),
    {
        self.tool_calls.push(record);
    }

    /// Appends a reasoning step to the thought trail.
    pub fn record_thought(&mut self, thought: String)
        ensures
            final (self).thoughts@ == old(self).thoughts@.push(thought),
            final (self).messages == old(self).messages,
            final (self).tool_calls == old(self).tool_calls,
            same_config(*old(self), *final (self)),
            same_counters(*old(self), *final (self)),
    {
        self.thoughts.push(thought);
    }

    /// Elapsed milliseconds as of the clock reading `now_ms`.
    pub fn elapsed_ms_at(&self, now_ms: u64) -> (r: u64)
        ensures
            r == if now_ms >= self.started_at_ms {
                now_ms - self.started_at_ms
            } else {
                0
            },
    {
        if now_ms >= self.started_at_ms {
            now_ms - self.started_at_ms
        } else {
            0
        }
    }

    /// Elapsed milliseconds, by the system clock.
    pub fn elapsed_ms(&self) -> u64 {
        self.elapsed_ms_at(current_time_millis())
    }

    /// The running token total: always the sum of the input and output
    /// accumulators, clamped only at the top of `u64`.
    pub fn total_tokens(&self) -> (r: u64)
        ensures
            r == sat_add_u64(self.total_input_tokens as int, self.total_output_tokens as int),
    {
        self.total_input_tokens.saturating_add(self.total_output_tokens)
    }
}

/// Why a run stopped: exactly one per run.
#[derive(Debug, Clone, PartialEq, Eq)]
pub enum StopReason {
    /// The strategy produced a final answer.
    Completed,
    /// The iteration bound was reached.
    MaxIterations,
    /// The cooperative timeout fired at an iteration boundary.
    Timeout,
    /// A fatal error ended the run.
    Error(String),
    /// The user requested the stop.
    UserStop,
}

/// Terminal, immutable outcome of one run.
#[derive(Debug, Clone, PartialEq)]
pub struct ExecutionResult {
    /// Run identifier, carried over from the context.
    pub id: String,
    /// Final response text; empty when the run failed.
    pub response: String,
    /// Whether the run completed with an answer.
    pub success: bool,
    /// Iterations run.
    pub iterations: u32,
    /// Tool calls made, in chronological order.
    pub tool_calls: Vec<ToolCallRecord>,
    /// Tokens spent.
    pub total_tokens: u64,
    /// Cost spent, in millionths of a dollar.
    pub total_cost_micros: u64,
    /// Wall-clock execution time, in milliseconds.
    pub execution_time_ms: u64,
    /// Why the run stopped.
    pub stop_reason: StopReason,
    /// Thoughts recorded, in chronological order.
    pub thoughts: Vec<String>,
}

impl ExecutionResult {
    /// A successful result, stopped as `Completed`.
    pub fn success(
        id: String,
        response: String,
        iterations: u32,
        tool_calls: Vec<ToolCallRecord>,
        total_tokens: u64,
        total_cost_micros: u64,
        execution_time_ms: u64,
        thoughts: Vec<String>,
    ) -> (r: ExecutionResult)
        ensures
            r.id@ == id@,
            r.response@ == response@,
            r.success == true,
            r.iterations == iterations,
            r.tool_calls == tool_calls,
            r.total_tokens == total_tokens,
            r.total_cost_micros == total_cost_micros,
            r.execution_time_ms == execution_time_ms,
            r.stop_reason matches StopReason::Completed,
            r.thoughts == thoughts,
    {
        ExecutionResult {
            id,
            response,
            success: true,
            iterations,
            tool_calls,
            total_tokens,
            total_cost_micros,
            execution_time_ms,
            stop_reason: StopReason::Completed,
            thoughts,
        }
    }

    /// A failed result: empty response, stopped as `Error` with the message.
    pub fn failure(
        id: String,
        error: String,
        iterations: u32,
        tool_calls: Vec<ToolCallRecord>,
        total_tokens: u64,
        total_cost_micros: u64,
        execution_time_ms: u64,
        thoughts: Vec<String>,
    ) -> (r: ExecutionResult)
        ensures
            r.id@ == id@,
            r.response@.len() == 0,
            r.success == false,
            r.iterations == iterations,
            r.tool_calls == tool_calls,
            r.total_tokens == total_tokens,
            r.total_cost_micros == total_cost_micros,
            r.execution_time_ms == execution_time_ms,
            r.stop_reason matches StopReason::Error(m) && m@ == error@,
            r.thoughts == thoughts,
    {
        ExecutionResult {
            id,
            response: String::new(),
            success: false,
            iterations,
            tool_calls,
            total_tokens,
            total_cost_micros,
            execution_time_ms,
            stop_reason: StopReason::Error(error),
            thoughts,
        }
    }
}

/// The input-token accumulator after folding a series of recorded usages.
pub open spec fn folded_input_tokens(usages: Seq<crate::llm::TokenUsage>) -> int
    decreases usages.len(),
{
    if usages.len() == 0 {
        0
    } else {
        sat_add_u64(folded_input_tokens(usages.drop_last()), usages.last().input_tokens as int)
    }
}

/// The output-token accumulator after folding a series of recorded usages.
pub open spec fn folded_output_tokens(usages: Seq<crate::llm::TokenUsage>) -> int
    decreases usages.len(),
{
    if usages.len() == 0 {
        0
    } else {
        sat_add_u64(folded_output_tokens(usages.drop_last()), usages.last().output_tokens as int)
    }
}

/// The plain sum of the input and output tokens a series of usages reports.
pub open spec fn plain_token_sum(usages: Seq<crate::llm::TokenUsage>) -> int
    decreases usages.len(),
{
    if usages.len() == 0 {
        0
    } else {
        plain_token_sum(usages.drop_last()) + usages.last().input_tokens
            + usages.last().output_tokens
    }
}

/// The token accumulators are monotonically non-decreasing: folding one more
/// recorded usage never lowers either of them.
pub proof fn lemma_token_accumulators_monotonic(
    usages: Seq<crate::llm::TokenUsage>,
    next: crate::llm::TokenUsage,
)
    ensures
        folded_input_tokens(usages.push(next)) >= folded_input_tokens(usages),
        folded_output_tokens(usages.push(next)) >= folded_output_tokens(usages),
{
    assert(usages.push(next).drop_last() =~= usages);
    lemma_folded_tokens_bounds(usages);
}

proof fn lemma_folded_tokens_bounds(usages: Seq<crate::llm::TokenUsage>)
    ensures
        0 <= folded_input_tokens(usages) <= u64::MAX,
        0 <= folded_output_tokens(usages) <= u64::MAX,
    decreases usages.len(),
{
    if usages.len() > 0 {
        lemma_folded_tokens_bounds(usages.drop_last());
    }
}

/// What `total_tokens` reports — the two accumulators added, which is how
/// `add_tokens` folds each recorded usage — always equals the running sum of
/// the recorded input and output tokens, as long as that sum fits the
/// accumulator type.
pub proof fn lemma_total_tokens_is_running_sum(usages: Seq<crate::llm::TokenUsage>)
    requires
        plain_token_sum(usages) <= u64::MAX,
    ensures
        folded_input_tokens(usages) + folded_output_tokens(usages) == plain_token_sum(usages),
    decreases usages.len(),
{
    if usages.len() > 0 {
        let prev = usages.drop_last();
        lemma_plain_sum_monotonic(usages);
        lemma_total_tokens_is_running_sum(prev);
        lemma_folded_tokens_bounds(prev);
    }
}

proof fn lemma_plain_sum_monotonic(usages: Seq<crate::llm::TokenUsage>)
    requires
        usages.len() > 0,
    ensures
        plain_token_sum(usages.drop_last()) <= plain_token_sum(usages),
{
}

} // verus!
