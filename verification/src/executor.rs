//! The run boundary: builds one execution context from configuration, seeds
//! the transcript, delegates to the configured strategy, and folds the
//! outcome into one immutable result — partial progress included, even on
//! failure.

use vstd::prelude::*;

use crate::config::{AgentConfig, ToolConfig};
use crate::context::{sat_add_u64, ExecutionContext, ExecutionResult, StopReason};
use crate::error::RuntimeError;
use crate::llm::{Clock, LlmClient, Message, MessageRole, SystemClock};
use crate::strategy::{strategy_obligations, Strategy};
use crate::text::{
    parse_u64_with_error, spec_parse_u64, str_chars, sub_chars, trim_chars, trim_spec,
};
use crate::tools::{CalculatorTool, StringTool, Tool, ToolError, ToolInput, ToolOutput,
    ToolRegistry};

verus! {

/// Seconds read out of duration text: a trailing `ms` divides by a thousand,
/// a trailing `s` or a bare number is seconds.
pub open spec fn spec_timeout_secs(s: Seq<char>) -> Option<int> {
    let t = trim_spec(s);
    if t.len() >= 2 && t.subrange(t.len() - 2, t.len() as int) == seq!['m', 's'] {
        match spec_parse_u64(t.take(t.len() - 2)) {
            Some(ms) => Some(ms as int / 1000),
            None => None,
        }
    } else if t.len() >= 1 && t.last() == 's' {
        match spec_parse_u64(t.take(t.len() - 1)) {
            Some(secs) => Some(secs as int),
            None => None,
        }
    } else {
        match spec_parse_u64(t) {
            Some(secs) => Some(secs as int),
            None => None,
        }
    }
}

/// Reads duration text as whole seconds, as the run timeout is configured.
pub fn parse_timeout_secs(timeout_str: &str) -> (r: Result<u64, RuntimeError>)
    ensures
        match r {
            Ok(secs) => spec_timeout_secs(timeout_str@) == Some(secs as int),
            Err(e) => spec_timeout_secs(timeout_str@) is None && e matches
                RuntimeError::ConfigError(_),
        },
{
    let t = trim_chars(&str_chars(timeout_str));
    let n = t.len();
    let number = if n >= 2 && t[n - 2] == 'm' && t[n - 1] == 's' {
        proof {
            assert(t@.subrange(n - 2, n as int) =~= seq!['m', 's']);
        }
        sub_chars(&t, 0, n - 2)
    } else if n >= 1 && t[n - 1] == 's' {
        proof {
            assert(!(t@.len() >= 2 && t@.subrange(t@.len() - 2, t@.len() as int) =~= seq![
                'm',
                's',
            ]));
        }
        sub_chars(&t, 0, n - 1)
    } else {
        proof {
            if t@.len() >= 2 && t@.subrange(t@.len() - 2, t@.len() as int) == seq!['m', 's'] {
                assert(t@.subrange(t@.len() - 2, t@.len() as int)[1] == t@[t@.len() - 1]);
                assert(false);
            }
        }
        sub_chars(&t, 0, n)
    };
    proof {
        assert(t@.subrange(0, t@.len() as int) =~= t@);
    }
    let value = match parse_u64_with_error(&number) {
        Ok(v) => v,
        Err(m) => {
            let mut msg = String::from_str("Invalid timeout format: ");
            msg.append(m.as_str());
            return Err(RuntimeError::ConfigError(msg));
        },
    };
    if n >= 2 && t[n - 2] == 'm' && t[n - 1] == 's' {
        Ok(value / 1000)
    } else {
        Ok(value)
    }
}

/// How a run-ending error folds into a stored stop reason: the two expected
/// terminations keep their own reasons, every fatal error becomes `Error`,
/// and the library's own error texts are pinned.
pub open spec fn stop_reason_maps(e: RuntimeError, sr: StopReason) -> bool {
    &&& (e matches RuntimeError::MaxIterationsReached(_) ==> sr is MaxIterations)
    &&& (e matches RuntimeError::Timeout(_) ==> sr is Timeout)
    &&& (!(e matches RuntimeError::MaxIterationsReached(_)) && !(e matches RuntimeError::Timeout(
        _,
    )) ==> sr is Error)
    &&& (e matches RuntimeError::ToolNotFound(s) ==> (sr matches StopReason::Error(m) && m@
        == "Tool not found: "@ + s@))
    &&& (e matches RuntimeError::InvalidToolCall(s) ==> (sr matches StopReason::Error(m) && m@
        == "Invalid tool call: "@ + s@))
    &&& (e matches RuntimeError::ConfigError(s) ==> (sr matches StopReason::Error(m) && m@
        == "Configuration error: "@ + s@))
}

/// The stop reason an error maps to, as `stop_reason_maps` relates them.
pub fn stop_reason_of(e: &RuntimeError) -> (r: StopReason)
    ensures
        stop_reason_maps(*e, r),
{
    match e {
        RuntimeError::MaxIterationsReached(_) => StopReason::MaxIterations,
        RuntimeError::Timeout(_) => StopReason::Timeout,
        _ => StopReason::Error(e.message()),
    }
}

/// A run's starting context, as the executor seeds it: a fresh identifier,
/// zeroed counters, empty trails, the bounds from the configuration (the
/// timeout in milliseconds, clamped at the top of `u64`), and a transcript
/// of the optional system message followed by the user input.
pub open spec fn spec_seeded_context(
    c0: ExecutionContext,
    config: AgentConfig,
    input: Seq<char>,
) -> bool {
    &&& c0.iteration == 0
    &&& c0.max_iterations == config.execution.max_iterations
    &&& (spec_timeout_secs(config.execution.timeout@) matches Some(secs) && c0.timeout_ms as int
        == (if secs * 1000 > u64::MAX {
        u64::MAX as int
    } else {
        secs * 1000
    }))
    &&& c0.total_input_tokens == 0
    &&& c0.total_output_tokens == 0
    &&& c0.total_cost_micros == 0
    &&& c0.tool_calls@.len() == 0
    &&& c0.thoughts@.len() == 0
    &&& c0.id@.len() == 36
    &&& c0.messages@.len() == (if config.system_prompt@.len() > 0 {
        2int
    } else {
        1int
    })
    &&& (config.system_prompt@.len() > 0 ==> c0.messages@[0].role == MessageRole::System
        && c0.messages@[0].content@ == config.system_prompt@)
    &&& c0.messages@.last().role == MessageRole::User
    &&& c0.messages@.last().content@ == input
}

/// A result reports a run faithfully: the final context's identifier,
/// iteration count, tool calls, thoughts, token total and cost are all
/// carried over — partial telemetry is never dropped — with success exactly
/// on a completed answer, whose text becomes the response, and every failure
/// folded through `stop_reason_maps` with an empty response.
pub open spec fn spec_result_of_run(
    res: ExecutionResult,
    c1: ExecutionContext,
    outcome: Result<String, RuntimeError>,
) -> bool {
    &&& res.id@ == c1.id@
    &&& res.iterations == c1.iteration
    &&& res.tool_calls == c1.tool_calls
    &&& res.thoughts == c1.thoughts
    &&& res.total_tokens as int == sat_add_u64(
        c1.total_input_tokens as int,
        c1.total_output_tokens as int,
    )
    &&& res.total_cost_micros == c1.total_cost_micros
    &&& match outcome {
        Ok(answer) => res.success == true && res.stop_reason is Completed && res.response@
            == answer@,
        Err(e) => res.success == false && res.response@.len() == 0 && stop_reason_maps(
            e,
            res.stop_reason,
        ),
    }
}

/// Orchestrates one run end-to-end.
pub struct AgentExecutor<L, T, S, C> {
    /// Static configuration for every run.
    pub config: AgentConfig,
    /// The model client, shared and read-only.
    pub llm: L,
    /// The tool registry, shared and read-only.
    pub tools: ToolRegistry<T>,
    /// The policy that drives each run's loop.
    pub strategy: S,
    /// The clock that bounds each run.
    pub clock: C,
}

impl<L: LlmClient, T: Tool, S: Strategy, C: Clock> AgentExecutor<L, T, S, C> {
    /// An executor over an explicit clock.
    pub fn new_with_clock(
        config: AgentConfig,
        llm: L,
        tools: ToolRegistry<T>,
        strategy: S,
        clock: C,
    ) -> (r: AgentExecutor<L, T, S, C>)
        ensures
            r.config == config,
            r.tools == tools,
    {
        AgentExecutor { config, llm, tools, strategy, clock }
    }

    /// Runs the agent once on `input`. The timeout text must parse, the
    /// strategy then drives the loop, and whatever happens the result keeps
    /// the partial metrics: iterations, tokens, cost, tool calls and
    /// thoughts recorded so far. Success means exactly a `Completed` stop.
    pub fn execute(&self, input: &str) -> (r: Result<ExecutionResult, RuntimeError>)
        ensures
            match r {
                Ok(res) => {
                    &&& spec_timeout_secs(self.config.execution.timeout@) is Some
                    &&& res.id@.len() == 36
                    &&& res.iterations <= self.config.execution.max_iterations
                    &&& (res.success <==> res.stop_reason is Completed)
                    &&& !(res.stop_reason is UserStop)
                    &&& exists|
                        c0: ExecutionContext,
                        c1: ExecutionContext,
                        outcome: Result<String, RuntimeError>,
                    |
                        {
                            &&& #[trigger] strategy_obligations(c0, c1)
                            &&& #[trigger] spec_result_of_run(res, c1, outcome)
                            &&& spec_seeded_context(c0, self.config, input@)
                        }
                },
                Err(e) => spec_timeout_secs(self.config.execution.timeout@) is None && e matches
                    RuntimeError::ConfigError(_),
            },
    {
        let timeout_secs = match parse_timeout_secs(self.config.execution.timeout.as_str()) {
            Ok(secs) => secs,
            Err(e) => {
                return Err(e);
            },
        };
        let timeout_ms = match timeout_secs.checked_mul(1000) {
            Some(x) => x,
            None => u64::MAX,
        };
        let mut context = ExecutionContext::new(self.config.execution.max_iterations, timeout_ms);
        if self.config.system_prompt.as_str().unicode_len() > 0 {
            context.add_message(Message::system(self.config.system_prompt.clone()));
        }
        context.add_message(Message::user(String::from_str(input).clone()));
        let ghost seeded = context;
        proof {
            assert(spec_seeded_context(seeded, self.config, input@));
        }
        let outcome = self.strategy.execute(
            &self.config,
            &self.llm,
            &self.tools,
            &self.clock,
            &mut context,
        );
        let ghost finished = context;
        let ghost run_outcome = outcome;
        let execution_time = context.elapsed_ms_at(self.clock.now_millis());
        let total = context.total_tokens();
        match outcome {
            Ok(response) => {
                let result = ExecutionResult::success(
                    context.id,
                    response,
                    context.iteration,
                    context.tool_calls,
                    total,
                    context.total_cost_micros,
                    execution_time,
                    context.thoughts,
                );
                proof {
                    assert(strategy_obligations(seeded, finished));
                    assert(spec_result_of_run(result, finished, run_outcome));
                }
                Ok(result)
            },
            Err(e) => {
                let reason = stop_reason_of(&e);
                let result = ExecutionResult {
                    id: context.id,
                    response: String::new(),
                    success: false,
                    iterations: context.iteration,
                    tool_calls: context.tool_calls,
                    total_tokens: total,
                    total_cost_micros: context.total_cost_micros,
                    execution_time_ms: execution_time,
                    stop_reason: reason,
                    thoughts: context.thoughts,
                };
                proof {
                    assert(strategy_obligations(seeded, finished));
                    assert(spec_result_of_run(result, finished, run_outcome));
                }
                Ok(result)
            },
        }
    }

    /// The executor's configuration.
    pub fn config(&self) -> (r: &AgentConfig)
        ensures
            r == &self.config,
    {
        &self.config
    }

    /// The executor's tool registry.
    pub fn tools(&self) -> (r: &ToolRegistry<T>)
        ensures
            r == &self.tools,
    {
        &self.tools
    }
}

impl<L: LlmClient, T: Tool, S: Strategy> AgentExecutor<L, T, S, SystemClock> {
    /// An executor over the system clock.
    pub fn new(config: AgentConfig, llm: L, tools: ToolRegistry<T>, strategy: S) -> (r:
        AgentExecutor<L, T, S, SystemClock>)
        ensures
            r.config == config,
            r.tools == tools,
    {
        AgentExecutor { config, llm, tools, strategy, clock: SystemClock }
    }
}

/// Builds an executor stepwise; `build` demands a configuration, a client
/// and a strategy.
pub struct AgentExecutorBuilder<L, T, S> {
    pub config: Option<AgentConfig>,
    pub llm: Option<L>,
    pub tools: ToolRegistry<T>,
    pub strategy: Option<S>,
}

impl<L: LlmClient, T: Tool, S: Strategy> AgentExecutorBuilder<L, T, S> {
    /// An empty builder.
    pub fn new() -> (r: AgentExecutorBuilder<L, T, S>)
        ensures
            r.config is None,
            r.llm is None,
            r.strategy is None,
            r.tools.spec_len() == 0,
    {
        AgentExecutorBuilder { config: None, llm: None, tools: ToolRegistry::new(), strategy: None }
    }

    /// Sets the configuration.
    pub fn config(self, config: AgentConfig) -> (r: AgentExecutorBuilder<L, T, S>)
        ensures
            r.config == Some(config),
            r.llm == self.llm,
            r.strategy == self.strategy,
            r.tools == self.tools,
    {
        AgentExecutorBuilder { config: Some(config), ..self }
    }

    /// Sets the model client.
    pub fn llm(self, llm: L) -> (r: AgentExecutorBuilder<L, T, S>)
        ensures
            r.llm == Some(llm),
            r.config == self.config,
            r.strategy == self.strategy,
            r.tools == self.tools,
    {
        AgentExecutorBuilder { llm: Some(llm), ..self }
    }

    /// Registers one tool under a name.
    pub fn tool(self, name: String, tool: T) -> (r: AgentExecutorBuilder<L, T, S>)
        ensures
            r.tools.spec_lookup(name@) == Some(tool),
            r.config == self.config,
            r.llm == self.llm,
            r.strategy == self.strategy,
    {
        let mut tools = self.tools;
        tools.insert(name, tool);
        AgentExecutorBuilder { tools, ..self }
    }

    /// Replaces the registry wholesale.
    pub fn tools(self, tools: ToolRegistry<T>) -> (r: AgentExecutorBuilder<L, T, S>)
        ensures
            r.tools == tools,
            r.config == self.config,
            r.llm == self.llm,
            r.strategy == self.strategy,
    {
        AgentExecutorBuilder { tools, ..self }
    }

    /// Sets the strategy.
    pub fn strategy(self, strategy: S) -> (r: AgentExecutorBuilder<L, T, S>)
        ensures
            r.strategy == Some(strategy),
            r.config == self.config,
            r.llm == self.llm,
            r.tools == self.tools,
    {
        AgentExecutorBuilder { strategy: Some(strategy), ..self }
    }

    /// Builds the executor; each missing required part is reported in order:
    /// configuration first, then client, then strategy.
    pub fn build(self) -> (r: Result<AgentExecutor<L, T, S, SystemClock>, RuntimeError>)
        ensures
            match r {
                Ok(executor) => {
                    &&& self.config matches Some(c) && executor.config == c
                    &&& self.llm is Some
                    &&& self.strategy is Some
                    &&& executor.tools == self.tools
                },
                Err(e) => {
                    &&& (self.config is None || self.llm is None || self.strategy is None)
                    &&& (e matches RuntimeError::ConfigError(m) && m@ == (if self.config is None {
                        "Missing agent config"@
                    } else if self.llm is None {
                        "Missing LLM adapter"@
                    } else {
                        "Missing execution strategy"@
                    }))
                },
            },
    {
        let config = match self.config {
            Some(c) => c,
            None => {
                return Err(RuntimeError::ConfigError(String::from_str("Missing agent config")));
            },
        };
        let llm = match self.llm {
            Some(l) => l,
            None => {
                return Err(RuntimeError::ConfigError(String::from_str("Missing LLM adapter")));
            },
        };
        let strategy = match self.strategy {
            Some(s) => s,
            None => {
                return Err(
                    RuntimeError::ConfigError(String::from_str("Missing execution strategy")),
                );
            },
        };
        Ok(AgentExecutor::new(config, llm, self.tools, strategy))
    }
}

impl<L: LlmClient, T: Tool, S: Strategy> Default for AgentExecutorBuilder<L, T, S> {
    /// An empty builder.
    fn default() -> (r: AgentExecutorBuilder<L, T, S>)
        ensures
            r.config is None,
            r.llm is None,
            r.strategy is None,
            r.tools.spec_len() == 0,
    {
        AgentExecutorBuilder::new()
    }
}

/// The tools the factory can build inside the library.
#[derive(Debug, Clone, Copy)]
pub enum BuiltinTool {
    /// The arithmetic calculator.
    Calculator(CalculatorTool),
    /// The string-manipulation tool.
    Strings(StringTool),
}

impl Tool for BuiltinTool {
    fn name(&self) -> (r: String)
        ensures
            (self matches BuiltinTool::Calculator(_) ==> r@ == "calculator"@),
            (self matches BuiltinTool::Strings(_) ==> r@ == "string"@),
    {
        match self {
            BuiltinTool::Calculator(t) => t.name(),
            BuiltinTool::Strings(t) => t.name(),
        }
    }

    fn description(&self) -> String {
        match self {
            BuiltinTool::Calculator(t) => t.description(),
            BuiltinTool::Strings(t) => t.description(),
        }
    }

    fn parameters(&self) -> String {
        match self {
            BuiltinTool::Calculator(t) => t.parameters(),
            BuiltinTool::Strings(t) => t.parameters(),
        }
    }

    fn execute(&self, input: &ToolInput) -> Result<ToolOutput, ToolError> {
        match self {
            BuiltinTool::Calculator(t) => t.execute(input),
            BuiltinTool::Strings(t) => t.execute(input),
        }
    }
}

/// What a configured tool needs from outside the library: the instructions
/// for the collaborator that owns the network and the disk.
#[derive(Debug, Clone, PartialEq)]
pub enum ToolPlan {
    /// A pre-configured HTTP endpoint tool, with its timeout resolved to
    /// milliseconds.
    Http {
        name: String,
        url: String,
        method: String,
        headers: Vec<(String, String)>,
        timeout_ms: u64,
    },
    /// A filesystem tool over the configured backend.
    Filesystem { name: String, config: crate::config::FileSystemToolConfig },
}

/// Milliseconds read out of duration text: `ms` is taken as is, a trailing
/// `s` or a bare number is seconds, saturating at the top of `u64`.
pub open spec fn spec_timeout_ms(s: Seq<char>) -> Option<int> {
    let t = trim_spec(s);
    if t.len() >= 2 && t.subrange(t.len() - 2, t.len() as int) == seq!['m', 's'] {
        match spec_parse_u64(t.take(t.len() - 2)) {
            Some(ms) => Some(ms as int),
            None => None,
        }
    } else if t.len() >= 1 && t.last() == 's' {
        match spec_parse_u64(t.take(t.len() - 1)) {
            Some(secs) => Some(
                if secs * 1000 > u64::MAX {
                    u64::MAX as int
                } else {
                    secs * 1000
                },
            ),
            None => None,
        }
    } else {
        match spec_parse_u64(t) {
            Some(secs) => Some(
                if secs * 1000 > u64::MAX {
                    u64::MAX as int
                } else {
                    secs * 1000
                },
            ),
            None => None,
        }
    }
}

/// A declared tool the factory cannot plan: an HTTP tool whose timeout text
/// does not parse, or a kind that is not available (database, vector search,
/// plugin and agent tools).
pub open spec fn spec_tool_unplannable(t: ToolConfig) -> bool {
    match t {
        ToolConfig::BuiltinHttp { config, .. } => spec_timeout_ms(config.timeout@) is None,
        ToolConfig::BuiltinFilesystem { .. } => false,
        _ => true,
    }
}

/// The plan a declared tool maps to: every field carried over, the timeout
/// resolved to milliseconds, the headers copied pairwise in order.
pub open spec fn spec_plan_matches(t: ToolConfig, p: ToolPlan) -> bool {
    match t {
        ToolConfig::BuiltinHttp { name, config } => (p matches ToolPlan::Http {
            name: n,
            url,
            method,
            headers,
            timeout_ms,
        } && n@ == name@ && url@ == config.url@ && method@ == config.method@ && spec_timeout_ms(
            config.timeout@,
        ) == Some(timeout_ms as int) && headers@.len() == config.headers@.len() && (forall|j: int|
            0 <= j < headers@.len() ==> (#[trigger] headers@[j]).0@ == config.headers@[j].0@
                && headers@[j].1@ == config.headers@[j].1@)),
        ToolConfig::BuiltinFilesystem { name, config } => (p matches ToolPlan::Filesystem {
            name: n,
            config: c,
        } && n@ == name@ && c == config),
        _ => false,
    }
}

/// Builds tool instances and plans from configuration.
#[derive(Debug, Clone, Copy, Default)]
pub struct ToolFactory;

impl ToolFactory {
    /// A factory.
    pub fn new() -> ToolFactory {
        ToolFactory
    }

    /// Reads duration text as milliseconds, as tool timeouts are configured.
    pub fn parse_timeout(&self, timeout_str: &str) -> (r: Result<u64, RuntimeError>)
        ensures
            match r {
                Ok(ms) => spec_timeout_ms(timeout_str@) == Some(ms as int),
                Err(e) => spec_timeout_ms(timeout_str@) is None && e matches
                    RuntimeError::ConfigError(_),
            },
    {
        let t = trim_chars(&str_chars(timeout_str));
        let n = t.len();
        let is_ms = n >= 2 && t[n - 2] == 'm' && t[n - 1] == 's';
        let number = if is_ms {
            proof {
                assert(t@.subrange(n - 2, n as int) =~= seq!['m', 's']);
            }
            sub_chars(&t, 0, n - 2)
        } else if n >= 1 && t[n - 1] == 's' {
            proof {
                assert(!(t@.len() >= 2 && t@.subrange(t@.len() - 2, t@.len() as int) =~= seq![
                    'm',
                    's',
                ]));
            }
            sub_chars(&t, 0, n - 1)
        } else {
            proof {
                if t@.len() >= 2 && t@.subrange(t@.len() - 2, t@.len() as int) == seq!['m', 's'] {
                    assert(t@.subrange(t@.len() - 2, t@.len() as int)[1] == t@[t@.len() - 1]);
                    assert(false);
                }
            }
            sub_chars(&t, 0, n)
        };
        proof {
            assert(t@.subrange(0, t@.len() as int) =~= t@);
        }
        let value = match parse_u64_with_error(&number) {
            Ok(v) => v,
            Err(m) => {
                let mut msg = String::from_str("Invalid timeout format: ");
                msg.append(m.as_str());
                return Err(RuntimeError::ConfigError(msg));
            },
        };
        if is_ms {
            Ok(value)
        } else {
            match value.checked_mul(1000) {
                Some(x) => Ok(x),
                None => Ok(u64::MAX),
            }
        }
    }

    /// Turns one declared tool into a plan for the outside collaborator.
    /// Database, vector-search, plugin and agent tools are not available.
    #[verifier::loop_isolation(false)]
    pub fn plan_tool(&self, tool_config: &ToolConfig) -> (r: Result<ToolPlan, RuntimeError>)
        ensures
            match r {
                Ok(plan) => !spec_tool_unplannable(*tool_config) && spec_plan_matches(
                    *tool_config,
                    plan,
                ),
                Err(e) => spec_tool_unplannable(*tool_config) && e matches
                    RuntimeError::ConfigError(_),
            },
    {
        match tool_config {
            ToolConfig::BuiltinHttp { name, config } => {
                let timeout_ms = match self.parse_timeout(config.timeout.as_str()) {
                    Ok(ms) => ms,
                    Err(e) => {
                        return Err(e);
                    },
                };
                let mut headers: Vec<(String, String)> = Vec::new();
                let mut i: usize = 0;
                while i < config.headers.len()
                    invariant
                        i <= config.headers@.len(),
                        headers@.len() == i,
                        forall|j: int|
                            0 <= j < i ==> (#[trigger] headers@[j]).0@ == config.headers@[j].0@
                                && headers@[j].1@ == config.headers@[j].1@,
                    decreases config.headers@.len() - i,
                {
                    headers.push(
                        (config.headers[i].0.clone(), config.headers[i].1.clone()),
                    );
                    i = i + 1;
                }
                Ok(
                    ToolPlan::Http {
                        name: name.clone(),
                        url: config.url.clone(),
                        method: config.method.clone(),
                        headers,
                        timeout_ms,
                    },
                )
            },
            ToolConfig::BuiltinFilesystem { name, config } => Ok(
                ToolPlan::Filesystem { name: name.clone(), config: config.duplicate() },
            ),
            ToolConfig::BuiltinDatabase { name, .. } => {
                let mut m = String::from_str("Database tool '");
                m.append(name.as_str());
                m.append("' not yet implemented");
                Err(RuntimeError::ConfigError(m))
            },
            ToolConfig::BuiltinVectorSearch { name, .. } => {
                let mut m = String::from_str("Vector search tool '");
                m.append(name.as_str());
                m.append("' not yet implemented");
                Err(RuntimeError::ConfigError(m))
            },
            ToolConfig::PluginPython { name, .. } => {
                let mut m = String::from_str("Python plugin tool '");
                m.append(name.as_str());
                m.append("' not yet implemented");
                Err(RuntimeError::ConfigError(m))
            },
            ToolConfig::Agent { name, .. } => {
                let mut m = String::from_str("Agent-as-tool '");
                m.append(name.as_str());
                m.append("' not yet implemented");
                Err(RuntimeError::ConfigError(m))
            },
        }
    }

    /// Builds the built-in registry — the calculator and the string tool are
    /// always available — and a plan for every tool the configuration
    /// declares, in declaration order.
    pub fn build_tools(&self, config: &AgentConfig) -> (r: Result<
        (ToolRegistry<BuiltinTool>, Vec<ToolPlan>),
        RuntimeError,
    >)
        ensures
            match r {
                Ok(out) => {
                    &&& out.0.spec_contains("calculator"@)
                    &&& out.0.spec_contains("string"@)
                    &&& out.0.spec_len() == 2
                    &&& out.1@.len() == config.tools@.len()
                    &&& forall|i: int|
                        0 <= i < config.tools@.len() ==> !spec_tool_unplannable(
                            #[trigger] config.tools@[i],
                        ) && spec_plan_matches(config.tools@[i], out.1@[i])
                },
                Err(e) => {
                    &&& exists|i: int|
                        0 <= i < config.tools@.len() && spec_tool_unplannable(
                            #[trigger] config.tools@[i],
                        )
                    &&& e matches RuntimeError::ConfigError(_)
                },
            },
    {
        let mut tools: ToolRegistry<BuiltinTool> = ToolRegistry::new();
        tools.insert(
            String::from_str("calculator"),
            BuiltinTool::Calculator(CalculatorTool::new()),
        );
        tools.insert(String::from_str("string"), BuiltinTool::Strings(StringTool::new()));
        proof {
            reveal_strlit("calculator");
            reveal_strlit("string");
        }
        let mut plans: Vec<ToolPlan> = Vec::new();
        let mut i: usize = 0;
        while i < config.tools.len()
            invariant
                i <= config.tools@.len(),
                plans@.len() == i,
                tools.spec_contains("calculator"@),
                tools.spec_contains("string"@),
                tools.spec_len() == 2,
                forall|k: int|
                    0 <= k < i ==> !spec_tool_unplannable(#[trigger] config.tools@[k])
                        && spec_plan_matches(config.tools@[k], plans@[k]),
            decreases config.tools@.len() - i,
        {
            match self.plan_tool(&config.tools[i]) {
                Ok(plan) => {
                    plans.push(plan);
                },
                Err(e) => {
                    return Err(e);
                },
            }
            i = i + 1;
        }
        Ok((tools, plans))
    }
}

} // verus!
