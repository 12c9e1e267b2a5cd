//! The ReAct strategy: each iteration consults the model (think), runs the
//! tool it names (act), folds the tool's output back into the transcript
//! (observe), and loops until a final answer or a bound stops the run.
//!
//! The action heuristic scans the model's free text for a `TOOL:` marker
//! followed by a parenthesized argument, and an `ANSWER:` marker for final
//! answers; the tool marker always wins when both appear.

use vstd::prelude::*;

use crate::config::AgentConfig;
use crate::context::{same_config, ExecutionContext, ToolCallRecord};
use crate::error::RuntimeError;
use crate::llm::{Clock, LLMRequest, LlmClient, Message, MessageRole};
use crate::text::{
    chars_string, find_chars, find_seq, str_chars, sub_chars, trim_chars, trim_spec,
};
use crate::tools::{json_text_is_valid, json_valid, Tool, ToolInput, ToolRegistry};

verus! {

/// The marker that announces a tool invocation.
pub open spec fn tool_marker() -> Seq<char> {
    seq!['T', 'O', 'O', 'L', ':']
}

/// The marker that announces a final answer.
pub open spec fn answer_marker() -> Seq<char> {
    seq!['A', 'N', 'S', 'W', 'E', 'R', ':']
}

/// What the action parser reads out of one model response: the text after
/// the first tool marker is trimmed; the tool name is what precedes its
/// first opening parenthesis and the argument is what stands between that
/// parenthesis and the first closing one, both trimmed. A response whose
/// first closing parenthesis precedes the opening one has no readable call.
pub open spec fn spec_extract_tool_call(s: Seq<char>) -> Option<(Seq<char>, Seq<char>)> {
    match find_seq(s, tool_marker()) {
        None => None,
        Some(m) => {
            let rest = trim_spec(s.skip(m + 5));
            match find_seq(rest, seq!['(']) {
                None => None,
                Some(p) => match find_seq(rest, seq![')']) {
                    None => None,
                    Some(e) => if e < p {
                        None
                    } else {
                        Some((trim_spec(rest.take(p)), trim_spec(rest.subrange(p + 1, e))))
                    },
                },
            }
        },
    }
}

/// A response is a final answer when it carries the answer marker or no tool
/// marker at all.
pub open spec fn spec_is_final_answer(s: Seq<char>) -> bool {
    find_seq(s, answer_marker()) is Some || find_seq(s, tool_marker()) is None
}

/// The answer text: what follows the first answer marker, trimmed, or the
/// whole trimmed response when the marker is absent.
pub open spec fn spec_extract_answer(s: Seq<char>) -> Seq<char> {
    match find_seq(s, answer_marker()) {
        None => trim_spec(s),
        Some(i) => trim_spec(s.skip(i + 7)),
    }
}

/// How the engine wraps raw argument text into a tool input: text that
/// opens like a JSON object and parses is passed through; text that opens
/// like an object but does not parse is wrapped as an `input` field; any
/// other text is wrapped as an `expression` field.
pub open spec fn spec_tool_input_for(arg: Seq<char>, inp: ToolInput) -> bool {
    if arg.len() > 0 && arg[0] == '{' {
        if json_valid(arg) {
            inp matches ToolInput::Structured(t) && t@ == arg
        } else {
            (inp matches ToolInput::Wrapped { field, value } && field@ == "input"@ && value@
                == arg)
        }
    } else {
        (inp matches ToolInput::Wrapped { field, value } && field@ == "expression"@ && value@
            == arg)
    }
}

/// Builds the tool input for raw argument text.
fn build_tool_input(argument: String) -> (r: ToolInput)
    ensures
        spec_tool_input_for(argument@, r),
{
    let chars = str_chars(argument.as_str());
    if chars.len() > 0 && chars[0] == '{' {
        if json_text_is_valid(argument.as_str()) {
            ToolInput::Structured(argument)
        } else {
            ToolInput::Wrapped { field: String::from_str("input"), value: argument }
        }
    } else {
        ToolInput::Wrapped { field: String::from_str("expression"), value: argument }
    }
}

/// The observation message a recorded tool call produces: the tool's name
/// and its recorded output.
pub open spec fn observation_text(rec: ToolCallRecord) -> Seq<char> {
    "Tool Result from "@ + rec.tool_name@ + ": "@ + (match rec.output {
        Some(o) => o@,
        None => Seq::<char>::empty(),
    })
}

/// The per-iteration trace the loop leaves behind. For every appended
/// tool-call record: its thought parses to a call whose name the record
/// carries — a name the registry holds, since an unregistered name ends the
/// run without a record — whose argument the record's input wraps, and some
/// output was recorded; a flagged `success == false` output is recorded
/// like any other, and only then does the loop move on. The transcript
/// interleaves one assistant message per thought with one observation
/// message per record, in iteration order.
pub open spec fn react_trace<T>(
    pre: ExecutionContext,
    post: ExecutionContext,
    tools: ToolRegistry<T>,
) -> bool {
    let tb = pre.thoughts@.len() as int;
    let rb = pre.tool_calls@.len() as int;
    let mb = pre.messages@.len() as int;
    let dth = post.thoughts@.len() - tb;
    let dtc = post.tool_calls@.len() - rb;
    &&& forall|j: int|
        rb <= j < post.tool_calls@.len() ==> {
            let rec = #[trigger] post.tool_calls@[j];
            let th = post.thoughts@[tb + (j - rb)]@;
            &&& (spec_extract_tool_call(th) matches Some(call) && rec.tool_name@ == call.0
                && spec_tool_input_for(call.1, rec.input))
            &&& tools.spec_contains(rec.tool_name@)
            &&& rec.output is Some
        }
    &&& forall|j: int|
        rb <= j < post.tool_calls@.len() ==> {
            let rec = #[trigger] post.tool_calls@[j];
            let a = mb + 2 * (j - rb);
            &&& post.messages@[a].role == MessageRole::Assistant
            &&& post.messages@[a].content@ == post.thoughts@[tb + (j - rb)]@
            &&& post.messages@[a + 1].role == MessageRole::User
            &&& post.messages@[a + 1].content@ == observation_text(rec)
        }
    &&& (dth == dtc + 1 ==> post.messages@[mb + 2 * dtc].role == MessageRole::Assistant
        && post.messages@[mb + 2 * dtc].content@ == post.thoughts@[tb + dtc]@)
}

/// The relation between a run's context before and after the ReAct loop and
/// the loop's outcome. Writing `dit`, `dth`, `dtc` for the growth of the
/// iteration counter, the thought trail and the tool-call trail: every
/// iteration makes one model call and records one thought, every completed
/// act records one tool call, the transcript grows by one message per
/// thought and per tool record, and the outcome pins how the last recorded
/// thought was read.
pub open spec fn react_run<T>(
    pre: ExecutionContext,
    post: ExecutionContext,
    r: Result<String, RuntimeError>,
    tools: ToolRegistry<T>,
) -> bool {
    let dit = post.iteration - pre.iteration;
    let dth = post.thoughts@.len() - pre.thoughts@.len();
    let dtc = post.tool_calls@.len() - pre.tool_calls@.len();
    &&& same_config(pre, post)
    &&& pre.thoughts@.is_prefix_of(post.thoughts@)
    &&& pre.messages@.is_prefix_of(post.messages@)
    &&& pre.tool_calls@.is_prefix_of(post.tool_calls@)
    &&& pre.iteration <= post.iteration <= post.max_iterations
    &&& post.messages@.len() == pre.messages@.len() + dth + dtc
    &&& post.total_input_tokens >= pre.total_input_tokens
    &&& post.total_output_tokens >= pre.total_output_tokens
    &&& post.total_cost_micros >= pre.total_cost_micros
    &&& react_trace(pre, post, tools)
    &&& match r {
        Ok(answer) => {
            &&& dth == dit
            &&& dth >= 1
            &&& dtc == dth - 1
            &&& spec_extract_tool_call(post.thoughts@.last()@) is None
            &&& spec_is_final_answer(post.thoughts@.last()@)
            &&& answer@ == spec_extract_answer(post.thoughts@.last()@)
        },
        Err(e) => match e {
            RuntimeError::MaxIterationsReached(n) => {
                &&& n == post.max_iterations
                &&& post.iteration == post.max_iterations
                &&& dth == dit
                &&& dtc == dth
            },
            RuntimeError::Timeout(secs) => {
                &&& secs == post.timeout_ms / 1000
                &&& dth == dit
                &&& dtc == dth
            },
            RuntimeError::ToolNotFound(name) => {
                &&& dth == dit
                &&& dth >= 1
                &&& dtc == dth - 1
                &&& (spec_extract_tool_call(post.thoughts@.last()@) matches Some((n, _)) && n
                    == name@)
                &&& !tools.spec_contains(name@)
            },
            RuntimeError::Tool(_) => {
                &&& dth == dit
                &&& dth >= 1
                &&& dtc == dth - 1
                &&& spec_extract_tool_call(post.thoughts@.last()@) is Some
            },
            RuntimeError::InvalidToolCall(m) => {
                &&& dth == dit
                &&& dth >= 1
                &&& dtc == dth - 1
                &&& spec_extract_tool_call(post.thoughts@.last()@) is None
                &&& !spec_is_final_answer(post.thoughts@.last()@)
                &&& m@ == "Response contained neither tool call nor final answer"@
            },
            RuntimeError::Llm(_) => {
                &&& dth == dit - 1
                &&& dtc == dth
            },
            _ => false,
        },
    }
}

/// What every strategy owes the executor, whatever its policy: the context
/// keeps its configuration, its trails only grow, its accumulators never
/// decrease, and its iteration counter moves forward and respects its bound.
pub open spec fn strategy_obligations(pre: ExecutionContext, post: ExecutionContext) -> bool {
    &&& same_config(pre, post)
    &&& pre.thoughts@.is_prefix_of(post.thoughts@)
    &&& pre.messages@.is_prefix_of(post.messages@)
    &&& pre.tool_calls@.is_prefix_of(post.tool_calls@)
    &&& pre.iteration <= post.iteration
    &&& (pre.iteration <= pre.max_iterations ==> post.iteration <= post.max_iterations)
    &&& post.total_input_tokens >= pre.total_input_tokens
    &&& post.total_output_tokens >= pre.total_output_tokens
    &&& post.total_cost_micros >= pre.total_cost_micros
}

/// Policy driving the think/act/observe loop; other strategies satisfy the
/// same contract without changing the executor.
pub trait Strategy {
    /// Runs the loop to a final answer or a run-ending error, mutating the
    /// context as it goes.
    fn execute<L: LlmClient, T: Tool, C: Clock>(
        &self,
        config: &AgentConfig,
        llm: &L,
        tools: &ToolRegistry<T>,
        clock: &C,
        context: &mut ExecutionContext,
    ) -> (r: Result<String, RuntimeError>)
        ensures
            strategy_obligations(*old(context), *final (context)),
    ;

    /// The strategy's identifier.
    fn name(&self) -> String;
}

/// The ReAct reasoning-and-acting strategy.
#[derive(Debug, Clone, Copy, Default)]
pub struct ReActStrategy;

impl ReActStrategy {
    /// A ReAct strategy.
    pub fn new() -> ReActStrategy {
        ReActStrategy
    }

    /// Reads a tool call out of a model response.
    pub fn extract_tool_call(&self, response: &str) -> (r: Option<(String, String)>)
        ensures
            match r {
                Some(call) => spec_extract_tool_call(response@) == Some((call.0@, call.1@)),
                None => spec_extract_tool_call(response@) is None,
            },
    {
        let chars = str_chars(response);
        let marker: Vec<char> = vec!['T', 'O', 'O', 'L', ':'];
        proof {
            assert(marker@ =~= tool_marker());
        }
        let m = match find_chars(&chars, &marker, 0) {
            None => {
                return None;
            },
            Some(m) => m,
        };
        let n = chars.len();
        proof {
            crate::text::lemma_find_from_some(chars@, marker@, 0, m as int);
            assert(m + 5 <= n);
        }
        let rest = trim_chars(&sub_chars(&chars, m + 5, n));
        proof {
            assert(chars@.subrange(m + 5, n as int) =~= chars@.skip(m + 5));
        }
        let open_paren: Vec<char> = vec!['('];
        let close_paren: Vec<char> = vec![')'];
        proof {
            assert(open_paren@ =~= seq!['(']);
            assert(close_paren@ =~= seq![')']);
        }
        let p = match find_chars(&rest, &open_paren, 0) {
            None => {
                return None;
            },
            Some(p) => p,
        };
        let e = match find_chars(&rest, &close_paren, 0) {
            None => {
                return None;
            },
            Some(e) => e,
        };
        proof {
            crate::text::lemma_find_from_some(rest@, open_paren@, 0, p as int);
            crate::text::lemma_find_from_some(rest@, close_paren@, 0, e as int);
        }
        if e < p {
            return None;
        }
        let name = chars_string(&trim_chars(&sub_chars(&rest, 0, p)));
        let argument = chars_string(&trim_chars(&sub_chars(&rest, p + 1, e)));
        proof {
            assert(rest@.subrange(0, p as int) =~= rest@.take(p as int));
        }
        Some((name, argument))
    }

    /// Whether a model response is a final answer.
    pub fn is_final_answer(&self, response: &str) -> (r: bool)
        ensures
            r == spec_is_final_answer(response@),
    {
        let chars = str_chars(response);
        let answer: Vec<char> = vec!['A', 'N', 'S', 'W', 'E', 'R', ':'];
        let tool: Vec<char> = vec!['T', 'O', 'O', 'L', ':'];
        proof {
            assert(answer@ =~= answer_marker());
            assert(tool@ =~= tool_marker());
        }
        let has_answer = match find_chars(&chars, &answer, 0) {
            Some(_) => true,
            None => false,
        };
        let has_tool = match find_chars(&chars, &tool, 0) {
            Some(_) => true,
            None => false,
        };
        has_answer || !has_tool
    }

    /// Reads the final answer out of a model response.
    pub fn extract_answer(&self, response: &str) -> (r: String)
        ensures
            r@ == spec_extract_answer(response@),
    {
        let chars = str_chars(response);
        let answer: Vec<char> = vec!['A', 'N', 'S', 'W', 'E', 'R', ':'];
        proof {
            assert(answer@ =~= answer_marker());
        }
        match find_chars(&chars, &answer, 0) {
            None => chars_string(&trim_chars(&chars)),
            Some(i) => {
                let n = chars.len();
                proof {
                    crate::text::lemma_find_from_some(chars@, answer@, 0, i as int);
                    assert(i + 7 <= n);
                }
                let tail = sub_chars(&chars, i + 7, n);
                proof {
                    assert(tail@ =~= chars@.skip(i + 7));
                }
                chars_string(&trim_chars(&tail))
            },
        }
    }

    /// The main ReAct loop. Guards run before each model call, so a run
    /// stops cleanly at the last allowed iteration, and a timeout fires only
    /// at an iteration boundary. Each iteration assembles one generation
    /// request from the transcript so far plus the configuration's model,
    /// temperature, token limit and top-p; the request is consumed by the
    /// uncontracted client and leaves no trace in the post-state, so the
    /// contract speaks of the transcript (which `react_trace` pins) rather
    /// than of the requests built from it.
    pub fn run<L: LlmClient, T: Tool, C: Clock>(
        &self,
        config: &AgentConfig,
        llm: &L,
        tools: &ToolRegistry<T>,
        clock: &C,
        context: &mut ExecutionContext,
    ) -> (r: Result<String, RuntimeError>)
        requires
            old(context).iteration <= old(context).max_iterations,
        ensures
            react_run(*old(context), *final (context), r, *tools),
    {
        loop
            invariant
                old(context).iteration <= context.iteration <= context.max_iterations,
                same_config(*old(context), *context),
                old(context).thoughts@.is_prefix_of(context.thoughts@),
                old(context).messages@.is_prefix_of(context.messages@),
                old(context).tool_calls@.is_prefix_of(context.tool_calls@),
                context.thoughts@.len() - old(context).thoughts@.len() == context.iteration - old(
                    context,
                ).iteration,
                context.tool_calls@.len() - old(context).tool_calls@.len()
                    == context.thoughts@.len() - old(context).thoughts@.len(),
                context.messages@.len() == old(context).messages@.len() + (context.thoughts@.len()
                    - old(context).thoughts@.len()) + (context.tool_calls@.len() - old(
                    context,
                ).tool_calls@.len()),
                context.total_input_tokens >= old(context).total_input_tokens,
                context.total_output_tokens >= old(context).total_output_tokens,
                context.total_cost_micros >= old(context).total_cost_micros,
                react_trace(*old(context), *context, *tools),
            decreases context.max_iterations - context.iteration,
        {
            if context.is_max_iterations_reached() {
                return Err(RuntimeError::MaxIterationsReached(context.max_iterations));
            }
            let now = clock.now_millis();
            if context.timed_out_at(now) {
                return Err(RuntimeError::Timeout(context.timeout_ms / 1000));
            }
            context.increment_iteration();
            let request = LLMRequest {
                messages: context.messages.clone(),
                model: config.llm.model.clone(),
                temperature_milli: Some(config.llm.temperature_milli),
                max_tokens: Some(config.llm.max_tokens),
                top_p_milli: config.llm.top_p_milli,
                stop_sequences: None,
                stream: false,
                tools: None,
            };
            let response = match llm.generate(&request) {
                Ok(resp) => resp,
                Err(e) => {
                    return Err(RuntimeError::Llm(e));
                },
            };
            context.add_tokens(&response.usage);
            let cost = match llm.estimate_cost(
                response.usage.input_tokens,
                response.usage.output_tokens,
                config.llm.model.as_str(),
            ) {
                Some(c) => c,
                None => 0,
            };
            context.add_cost(cost);
            context.record_thought(response.content.clone());
            context.add_message(Message::assistant(response.content.clone()));
            proof {
                let tb = old(context).thoughts@.len() as int;
                let rb = old(context).tool_calls@.len() as int;
                let mb = old(context).messages@.len() as int;
                let dtc = context.tool_calls@.len() - rb;
                assert(context.thoughts@[tb + dtc] == response.content);
                assert(context.messages@[mb + 2 * dtc].content@ == response.content@);
                assert(react_trace(*old(context), *context, *tools));
            }
            match self.extract_tool_call(response.content.as_str()) {
                Some(call) => {
                    let (tool_name, argument) = call;
                    let ghost name_view = tool_name@;
                    let tool = match tools.get(tool_name.as_str()) {
                        None => {
                            return Err(RuntimeError::ToolNotFound(tool_name));
                        },
                        Some(t) => t,
                    };
                    let input = build_tool_input(argument);
                    let started = clock.now_millis();
                    let output = match tool.execute(&input) {
                        Err(e) => {
                            return Err(RuntimeError::Tool(e));
                        },
                        Ok(o) => o,
                    };
                    let finished = clock.now_millis();
                    let elapsed = if finished >= started {
                        finished - started
                    } else {
                        0
                    };
                    let mut observation = String::from_str("Tool Result from ");
                    observation.append(tool_name.as_str());
                    observation.append(": ");
                    observation.append(output.content.as_str());
                    context.record_tool_call(
                        ToolCallRecord {
                            tool_name,
                            input,
                            output: Some(output.content),
                            success: output.success,
                            execution_time_ms: elapsed,
                            timestamp_ms: started,
                        },
                    );
                    context.add_message(Message::user(observation));
                    proof {
                        let tb = old(context).thoughts@.len() as int;
                        let rb = old(context).tool_calls@.len() as int;
                        let last = context.tool_calls@.len() - 1;
                        assert(context.tool_calls@[last as int].tool_name@ == name_view);
                        assert(context.thoughts@[tb + (last - rb)] == response.content);
                        assert(context.messages@.last().content@ == observation_text(
                            context.tool_calls@[last as int],
                        ));
                        assert(react_trace(*old(context), *context, *tools));
                    }
                },
                None => {
                    if self.is_final_answer(response.content.as_str()) {
                        return Ok(self.extract_answer(response.content.as_str()));
                    }
                    return Err(
                        RuntimeError::InvalidToolCall(
                            String::from_str(
                                "Response contained neither tool call nor final answer",
                            ),
                        ),
                    );
                },
            }
        }
    }
}

impl Strategy for ReActStrategy {
    /// Runs the ReAct loop; a context already past its iteration bound stops
    /// at once with the bound reported.
    fn execute<L: LlmClient, T: Tool, C: Clock>(
        &self,
        config: &AgentConfig,
        llm: &L,
        tools: &ToolRegistry<T>,
        clock: &C,
        context: &mut ExecutionContext,
    ) -> (r: Result<String, RuntimeError>)
        ensures
            old(context).iteration <= old(context).max_iterations ==> react_run(
                *old(context),
                *final (context),
                r,
                *tools,
            ),
    {
        if context.iteration > context.max_iterations {
            return Err(RuntimeError::MaxIterationsReached(context.max_iterations));
        }
        self.run(config, llm, tools, clock, context)
    }

    fn name(&self) -> (r: String)
        ensures
            r@ == "react"@,
    {
        String::from_str("react")
    }
}

/// When a response holds a readable tool call, the run never completes on
/// that response, whether or not it also holds a final-answer marker: the
/// tool marker wins for the iteration.
pub proof fn lemma_tool_marker_wins<T>(
    pre: ExecutionContext,
    post: ExecutionContext,
    r: Result<String, RuntimeError>,
    tools: ToolRegistry<T>,
)
    requires
        react_run(pre, post, r, tools),
        post.thoughts@.len() > pre.thoughts@.len(),
        spec_extract_tool_call(post.thoughts@.last()@) is Some,
    ensures
        !(r is Ok),
{
}

/// With a fresh context, a model whose every response carries a readable
/// tool call on a registered tool never completes: once the model has been
/// consulted exactly `max_iterations` times, the run stops with the
/// iteration bound as its reason. The premises leave out the other exits:
/// the model, the tools and the clock all let every iteration finish.
pub proof fn lemma_no_answer_exhausts_iterations<T>(
    pre: ExecutionContext,
    post: ExecutionContext,
    r: Result<String, RuntimeError>,
    tools: ToolRegistry<T>,
)
    requires
        react_run(pre, post, r, tools),
        pre.iteration == 0,
        forall|i: int|
            pre.thoughts@.len() <= i < post.thoughts@.len() ==> spec_extract_tool_call(
                #[trigger] post.thoughts@[i]@,
            ) is Some,
        forall|i: int|
            pre.thoughts@.len() <= i < post.thoughts@.len() ==> (spec_extract_tool_call(
                #[trigger] post.thoughts@[i]@,
            ) matches Some(call) ==> tools.spec_contains(call.0)),
        !(r matches Err(RuntimeError::Llm(_))),
        !(r matches Err(RuntimeError::Tool(_))),
        !(r matches Err(RuntimeError::Timeout(_))),
    ensures
        r matches Err(RuntimeError::MaxIterationsReached(n)) && n == post.max_iterations,
        post.iteration == post.max_iterations,
        post.thoughts@.len() - pre.thoughts@.len() == post.max_iterations,
        post.tool_calls@.len() - pre.tool_calls@.len() == post.max_iterations,
{
    let last = post.thoughts@.len() - 1;
    match r {
        Ok(_) => {
            assert(post.thoughts@[last]@ == post.thoughts@.last()@);
            assert(false);
        },
        Err(e) => match e {
            RuntimeError::MaxIterationsReached(_) => {},
            RuntimeError::ToolNotFound(name) => {
                assert(post.thoughts@[last]@ == post.thoughts@.last()@);
                assert(false);
            },
            RuntimeError::InvalidToolCall(_) => {
                assert(post.thoughts@[last]@ == post.thoughts@.last()@);
                assert(false);
            },
            _ => {
                assert(false);
            },
        },
    }
}

/// A timeout is seen only at an iteration boundary: everything recorded
/// belongs to completed iterations, and no partial iteration leaves a trace.
pub proof fn lemma_timeout_at_boundary<T>(
    pre: ExecutionContext,
    post: ExecutionContext,
    r: Result<String, RuntimeError>,
    tools: ToolRegistry<T>,
)
    requires
        react_run(pre, post, r, tools),
        r matches Err(RuntimeError::Timeout(_)),
    ensures
        post.thoughts@.len() - pre.thoughts@.len() == post.iteration - pre.iteration,
        post.tool_calls@.len() - pre.tool_calls@.len() == post.thoughts@.len()
            - pre.thoughts@.len(),
        post.messages@.len() - pre.messages@.len() == (post.thoughts@.len() - pre.thoughts@.len())
            + (post.tool_calls@.len() - pre.tool_calls@.len()),
{
}

} // verus!
