//! The persistable shape of a completed run: records, filters and summary
//! statistics. Writing these to a database happens outside the library; the
//! logic that builds, filters and summarizes them is here.

use vstd::prelude::*;

use crate::config::AgentConfig;
use crate::context::{sat_add_u64, ExecutionResult};
use crate::text::str_eq;

verus! {

/// Why a stored run stopped.
#[derive(Debug, Clone, Copy, PartialEq, Eq, Structural)]
pub enum StopReason {
    Completed,
    MaxIterations,
    Timeout,
    Error,
    UserStop,
}

impl StopReason {
    /// The stable textual form the storage layer writes.
    pub fn to_string(&self) -> (r: String)
        ensures
            (*self == StopReason::Completed ==> r@ == "completed"@),
            (*self == StopReason::MaxIterations ==> r@ == "max_iterations"@),
            (*self == StopReason::Timeout ==> r@ == "timeout"@),
            (*self == StopReason::Error ==> r@ == "error"@),
            (*self == StopReason::UserStop ==> r@ == "user_stop"@),
    {
        match self {
            StopReason::Completed => String::from_str("completed"),
            StopReason::MaxIterations => String::from_str("max_iterations"),
            StopReason::Timeout => String::from_str("timeout"),
            StopReason::Error => String::from_str("error"),
            StopReason::UserStop => String::from_str("user_stop"),
        }
    }

    /// What reading stop-reason text gives: each stable form maps back to
    /// its reason, and anything else is rejected with a message naming it.
    pub open spec fn spec_from_str(s: Seq<char>) -> Result<StopReason, Seq<char>> {
        if s == "completed"@ {
            Ok(StopReason::Completed)
        } else if s == "max_iterations"@ {
            Ok(StopReason::MaxIterations)
        } else if s == "timeout"@ {
            Ok(StopReason::Timeout)
        } else if s == "error"@ {
            Ok(StopReason::Error)
        } else if s == "user_stop"@ {
            Ok(StopReason::UserStop)
        } else {
            Err("Unknown stop reason: "@ + s)
        }
    }

    /// Reads the textual form back, as `spec_from_str` gives it.
    pub fn from_str(s: &str) -> (r: Result<StopReason, String>)
        ensures
            match r {
                Ok(v) => StopReason::spec_from_str(s@) == Ok::<StopReason, Seq<char>>(v),
                Err(m) => StopReason::spec_from_str(s@) == Err::<StopReason, Seq<char>>(m@),
            },
    {
        if str_eq(s, "completed") {
            Ok(StopReason::Completed)
        } else if str_eq(s, "max_iterations") {
            Ok(StopReason::MaxIterations)
        } else if str_eq(s, "timeout") {
            Ok(StopReason::Timeout)
        } else if str_eq(s, "error") {
            Ok(StopReason::Error)
        } else if str_eq(s, "user_stop") {
            Ok(StopReason::UserStop)
        } else {
            let mut m = String::from_str("Unknown stop reason: ");
            m.append(s);
            Err(m)
        }
    }
}

/// The stored stop reason a run outcome maps to: the error's message moves
/// into the record's own error column.
pub fn convert_stop_reason(reason: &crate::context::StopReason) -> (r: StopReason)
    ensures
        (reason matches crate::context::StopReason::Completed ==> r == StopReason::Completed),
        (reason matches crate::context::StopReason::MaxIterations ==> r
            == StopReason::MaxIterations),
        (reason matches crate::context::StopReason::Timeout ==> r == StopReason::Timeout),
        (reason matches crate::context::StopReason::Error(_) ==> r == StopReason::Error),
        (reason matches crate::context::StopReason::UserStop ==> r == StopReason::UserStop),
{
    match reason {
        crate::context::StopReason::Completed => StopReason::Completed,
        crate::context::StopReason::MaxIterations => StopReason::MaxIterations,
        crate::context::StopReason::Timeout => StopReason::Timeout,
        crate::context::StopReason::Error(_) => StopReason::Error,
        crate::context::StopReason::UserStop => StopReason::UserStop,
    }
}

/// A stored tool call, numbered by its position in the run.
#[derive(Debug, Clone, PartialEq)]
pub struct ToolCallEntry {
    /// Row identifier assigned by the store; zero before saving.
    pub id: i64,
    pub run_id: String,
    /// Position of the call within its run.
    pub sequence_number: u32,
    pub tool_name: String,
    /// The tool's input as JSON text.
    pub input: String,
    pub output: Option<String>,
    pub success: bool,
    pub error_message: Option<String>,
    pub execution_time_ms: u64,
    /// Milliseconds since the Unix epoch.
    pub timestamp_ms: i64,
}

/// A stored reasoning step, numbered by its position in the run.
#[derive(Debug, Clone, PartialEq)]
pub struct ThoughtEntry {
    /// Row identifier assigned by the store; zero before saving.
    pub id: i64,
    pub run_id: String,
    /// Position of the thought within its run.
    pub sequence_number: u32,
    pub content: String,
    /// Milliseconds since the Unix epoch.
    pub timestamp_ms: i64,
}

/// A complete stored run.
#[derive(Debug, Clone, PartialEq)]
pub struct RunRecord {
    pub id: String,
    pub agent_name: String,
    pub agent_version: Option<String>,
    pub input_prompt: String,
    pub response: Option<String>,
    pub success: bool,
    pub stop_reason: StopReason,
    pub error_message: Option<String>,
    pub iterations: u32,
    pub total_tokens: u64,
    /// Cost in millionths of a dollar.
    pub total_cost_micros: u64,
    pub execution_time_ms: u64,
    pub llm_provider: Option<String>,
    pub llm_model: Option<String>,
    /// Milliseconds since the Unix epoch.
    pub started_at_ms: i64,
    /// Milliseconds since the Unix epoch.
    pub completed_at_ms: i64,
    pub tool_calls: Vec<ToolCallEntry>,
    pub thoughts: Vec<ThoughtEntry>,
}

/// Builds the storable record of a finished run. Every persisted sequence
/// number equals the entry's in-memory index, the trails carry over entry by
/// entry, and the start time is the completion time less the execution time.
pub fn build_run_record(
    config: &AgentConfig,
    input: &str,
    result: &ExecutionResult,
    completed_at_ms: i64,
) -> (r: RunRecord)
    requires
        result.tool_calls@.len() <= u32::MAX,
        result.thoughts@.len() <= u32::MAX,
        result.execution_time_ms <= i64::MAX,
    ensures
        r.id@ == result.id@,
        r.agent_name@ == config.name@,
        r.agent_version matches Some(v) && v@ == config.version@,
        r.input_prompt@ == input@,
        r.response matches Some(resp) && resp@ == result.response@,
        r.success == result.success,
        (result.stop_reason matches crate::context::StopReason::Error(m) ==> (
        r.error_message matches Some(e) && e@ == m@)),
        (!(result.stop_reason matches crate::context::StopReason::Error(_))
            ==> r.error_message is None),
        r.iterations == result.iterations,
        r.total_tokens == result.total_tokens,
        r.total_cost_micros == result.total_cost_micros,
        r.execution_time_ms == result.execution_time_ms,
        r.llm_provider matches Some(p) && p@ == config.llm.provider@,
        r.llm_model matches Some(m) && m@ == config.llm.model@,
        r.completed_at_ms == completed_at_ms,
        r.started_at_ms == completed_at_ms - result.execution_time_ms as int || (completed_at_ms
            - result.execution_time_ms < i64::MIN && r.started_at_ms == i64::MIN),
        r.tool_calls@.len() == result.tool_calls@.len(),
        forall|i: int|
            0 <= i < r.tool_calls@.len() ==> {
                let entry = #[trigger] r.tool_calls@[i];
                &&& entry.sequence_number == i
                &&& entry.run_id@ == result.id@
                &&& entry.tool_name@ == result.tool_calls@[i].tool_name@
                &&& entry.input@ == result.tool_calls@[i].input.spec_json_text()
                &&& entry.output == result.tool_calls@[i].output
                &&& entry.success == result.tool_calls@[i].success
                &&& entry.execution_time_ms == result.tool_calls@[i].execution_time_ms
            },
        r.thoughts@.len() == result.thoughts@.len(),
        forall|i: int|
            0 <= i < r.thoughts@.len() ==> {
                let entry = #[trigger] r.thoughts@[i];
                &&& entry.sequence_number == i
                &&& entry.run_id@ == result.id@
                &&& entry.content@ == result.thoughts@[i]@
                &&& entry.timestamp_ms == completed_at_ms
            },
{
    let started_at_ms = match completed_at_ms.checked_sub_unsigned(result.execution_time_ms) {
        Some(t) => t,
        None => i64::MIN,
    };
    let error_message: Option<String> = match &result.stop_reason {
        crate::context::StopReason::Error(m) => Some(m.clone()),
        _ => None,
    };
    let mut tool_calls: Vec<ToolCallEntry> = Vec::new();
    let mut i: usize = 0;
    while i < result.tool_calls.len()
        invariant
            i <= result.tool_calls@.len() <= u32::MAX,
            tool_calls@.len() == i,
            forall|k: int|
                0 <= k < i ==> {
                    let entry = #[trigger] tool_calls@[k];
                    &&& entry.sequence_number == k
                    &&& entry.run_id@ == result.id@
                    &&& entry.tool_name@ == result.tool_calls@[k].tool_name@
                    &&& entry.input@ == result.tool_calls@[k].input.spec_json_text()
                    &&& entry.output == result.tool_calls@[k].output
                    &&& entry.success == result.tool_calls@[k].success
                    &&& entry.execution_time_ms == result.tool_calls@[k].execution_time_ms
                },
        decreases result.tool_calls@.len() - i,
    {
        let record = &result.tool_calls[i];
        let timestamp_ms: i64 = if record.timestamp_ms <= i64::MAX as u64 {
            record.timestamp_ms as i64
        } else {
            i64::MAX
        };
        tool_calls.push(
            ToolCallEntry {
                id: 0,
                run_id: result.id.clone(),
                sequence_number: i as u32,
                tool_name: record.tool_name.clone(),
                input: record.input.to_json_text(),
                output: match &record.output {
                    Some(o) => Some(o.clone()),
                    None => None,
                },
                success: record.success,
                error_message: None,
                execution_time_ms: record.execution_time_ms,
                timestamp_ms,
            },
        );
        i = i + 1;
    }
    let mut thoughts: Vec<ThoughtEntry> = Vec::new();
    let mut j: usize = 0;
    while j < result.thoughts.len()
        invariant
            j <= result.thoughts@.len() <= u32::MAX,
            thoughts@.len() == j,
            forall|k: int|
                0 <= k < j ==> {
                    let entry = #[trigger] thoughts@[k];
                    &&& entry.sequence_number == k
                    &&& entry.run_id@ == result.id@
                    &&& entry.content@ == result.thoughts@[k]@
                    &&& entry.timestamp_ms == completed_at_ms
                },
        decreases result.thoughts@.len() - j,
    {
        thoughts.push(
            ThoughtEntry {
                id: 0,
                run_id: result.id.clone(),
                sequence_number: j as u32,
                content: result.thoughts[j].clone(),
                timestamp_ms: completed_at_ms,
            },
        );
        j = j + 1;
    }
    RunRecord {
        id: result.id.clone(),
        agent_name: config.name.clone(),
        agent_version: Some(config.version.clone()),
        input_prompt: String::from_str(input),
        response: Some(result.response.clone()),
        success: result.success,
        stop_reason: convert_stop_reason(&result.stop_reason),
        error_message,
        iterations: result.iterations,
        total_tokens: result.total_tokens,
        total_cost_micros: result.total_cost_micros,
        execution_time_ms: result.execution_time_ms,
        llm_provider: Some(config.llm.provider.clone()),
        llm_model: Some(config.llm.model.clone()),
        started_at_ms,
        completed_at_ms,
        tool_calls,
        thoughts,
    }
}

/// Query bounds for listing stored runs.
#[derive(Debug, Clone, PartialEq)]
pub struct RunFilter {
    pub agent_name: Option<String>,
    pub success: Option<bool>,
    /// Keep runs started at or after this time, in epoch milliseconds.
    pub since_ms: Option<i64>,
    /// Keep runs started at or before this time, in epoch milliseconds.
    pub until_ms: Option<i64>,
    pub limit: Option<u32>,
    pub offset: Option<u32>,
}

impl Default for RunFilter {
    /// No bounds at all.
    fn default() -> (r: RunFilter)
        ensures
            r.agent_name is None,
            r.success is None,
            r.since_ms is None,
            r.until_ms is None,
            r.limit is None,
            r.offset is None,
    {
        RunFilter {
            agent_name: None,
            success: None,
            since_ms: None,
            until_ms: None,
            limit: None,
            offset: None,
        }
    }
}

impl RunFilter {
    /// Whether a record passes every bound the filter sets.
    pub open spec fn spec_matches(self, record: RunRecord) -> bool {
        &&& (self.agent_name matches Some(n) ==> record.agent_name@ == n@)
        &&& (self.success matches Some(s) ==> record.success == s)
        &&& (self.since_ms matches Some(t) ==> record.started_at_ms >= t)
        &&& (self.until_ms matches Some(t) ==> record.started_at_ms <= t)
    }

    /// Tests a record against the filter's bounds.
    pub fn matches(&self, record: &RunRecord) -> (r: bool)
        ensures
            r == self.spec_matches(*record),
    {
        let name_ok = match &self.agent_name {
            Some(n) => str_eq(record.agent_name.as_str(), n.as_str()),
            None => true,
        };
        let success_ok = match self.success {
            Some(s) => record.success == s,
            None => true,
        };
        let since_ok = match self.since_ms {
            Some(t) => record.started_at_ms >= t,
            None => true,
        };
        let until_ok = match self.until_ms {
            Some(t) => record.started_at_ms <= t,
            None => true,
        };
        name_ok && success_ok && since_ok && until_ok
    }
}

/// The records of `s` that pass `filter`, in order.
pub open spec fn filtered_runs(s: Seq<RunRecord>, filter: RunFilter) -> Seq<RunRecord>
    decreases s.len(),
{
    if s.len() == 0 {
        Seq::empty()
    } else {
        filtered_runs(s.drop_last(), filter) + (if filter.spec_matches(s.last()) {
            seq![s.last()]
        } else {
            Seq::<RunRecord>::empty()
        })
    }
}

/// The window `offset`/`limit` cuts out of a result list.
pub open spec fn windowed(s: Seq<RunRecord>, offset: Option<u32>, limit: Option<u32>) -> Seq<
    RunRecord,
> {
    let from = match offset {
        Some(o) => if o as int <= s.len() {
            o as int
        } else {
            s.len() as int
        },
        None => 0,
    };
    let until = match limit {
        Some(l) => if from + l as int <= s.len() {
            from + l as int
        } else {
            s.len() as int
        },
        None => s.len() as int,
    };
    s.subrange(from, until)
}

/// Lists the runs that pass the filter, in their stored order, windowed by
/// the filter's offset and limit.
pub fn filter_runs(records: Vec<RunRecord>, filter: &RunFilter) -> (r: Vec<RunRecord>)
    ensures
        r@ == windowed(filtered_runs(records@, *filter), filter.offset, filter.limit),
{
    let ghost all = records@;
    let mut rest = records;
    let mut matched: Vec<RunRecord> = Vec::new();
    proof {
        assert(rest@ =~= all.skip(0));
        assert(matched@ =~= filtered_runs(all.take(0), *filter));
    }
    while rest.len() > 0
        invariant
            rest@.len() <= all.len(),
            rest@ == all.skip(all.len() - rest@.len()),
            matched@ == filtered_runs(all.take(all.len() - rest@.len()), *filter),
        decreases rest@.len(),
    {
        let ghost seen = all.len() - rest@.len();
        let record = rest.remove(0);
        proof {
            assert(all.skip(seen)[0] == all[seen]);
            assert(all.skip(seen).drop_first() =~= all.skip(seen + 1));
            assert(rest@ =~= all.skip(seen + 1));
            assert(all.take(seen + 1).drop_last() =~= all.take(seen));
            assert(all.take(seen + 1).last() == all[seen]);
        }
        if filter.matches(&record) {
            matched.push(record);
        }
    }
    proof {
        assert(all.take(all.len() as int) =~= all);
    }
    let ghost msrc = matched@;
    let from: usize = match filter.offset {
        Some(o) => {
            if (o as usize) <= matched.len() {
                o as usize
            } else {
                matched.len()
            }
        },
        None => 0,
    };
    let until: usize = match filter.limit {
        Some(l) => {
            if (l as usize) <= matched.len() - from {
                from + (l as usize)
            } else {
                matched.len()
            }
        },
        None => matched.len(),
    };
    let mut out: Vec<RunRecord> = Vec::new();
    let mut source = matched;
    let mut k: usize = from;
    proof {
        assert(source@ =~= msrc.subrange(0, from as int) + msrc.subrange(
            from as int,
            msrc.len() as int,
        ));
        assert(out@ =~= msrc.subrange(from as int, from as int));
    }
    while k < until
        invariant
            from <= k <= until <= msrc.len(),
            source@ == msrc.subrange(0, from as int) + msrc.subrange(
                k as int,
                msrc.len() as int,
            ),
            out@ == msrc.subrange(from as int, k as int),
        decreases until - k,
    {
        proof {
            assert(msrc.subrange(0, from as int).len() == from);
            assert(source@[from as int] == msrc.subrange(k as int, msrc.len() as int)[0]);
            assert(msrc.subrange(k as int, msrc.len() as int)[0] == msrc[k as int]);
        }
        let item = source.remove(from);
        proof {
            assert(source@ =~= msrc.subrange(0, from as int) + msrc.subrange(
                k + 1,
                msrc.len() as int,
            ));
        }
        out.push(item);
        k = k + 1;
        proof {
            assert(out@ =~= msrc.subrange(from as int, k as int));
        }
    }
    proof {
        assert(out@ =~= windowed(msrc, filter.offset, filter.limit));
    }
    out
}

/// Summary statistics over a set of stored runs.
#[derive(Debug, Clone, Copy, PartialEq, Eq, Structural)]
pub struct RunStats {
    pub total_runs: u64,
    pub successful_runs: u64,
    pub failed_runs: u64,
    pub total_tokens: u64,
    /// Cost in millionths of a dollar.
    pub total_cost_micros: u64,
    /// Mean execution time in whole milliseconds.
    pub avg_execution_time_ms: u64,
}

impl Default for RunStats {
    /// All zeroes.
    fn default() -> (r: RunStats)
        ensures
            r.total_runs == 0,
            r.successful_runs == 0,
            r.failed_runs == 0,
            r.total_tokens == 0,
            r.total_cost_micros == 0,
            r.avg_execution_time_ms == 0,
    {
        RunStats {
            total_runs: 0,
            successful_runs: 0,
            failed_runs: 0,
            total_tokens: 0,
            total_cost_micros: 0,
            avg_execution_time_ms: 0,
        }
    }
}

/// Successful runs among `s`.
pub open spec fn count_success(s: Seq<RunRecord>) -> int
    decreases s.len(),
{
    if s.len() == 0 {
        0
    } else {
        count_success(s.drop_last()) + if s.last().success {
            1int
        } else {
            0int
        }
    }
}

/// Token total over `s`, clamped at the top of `u64`.
pub open spec fn sum_tokens(s: Seq<RunRecord>) -> int
    decreases s.len(),
{
    if s.len() == 0 {
        0
    } else {
        sat_add_u64(sum_tokens(s.drop_last()), s.last().total_tokens as int)
    }
}

/// Cost total over `s`, clamped at the top of `u64`.
pub open spec fn sum_cost(s: Seq<RunRecord>) -> int
    decreases s.len(),
{
    if s.len() == 0 {
        0
    } else {
        sat_add_u64(sum_cost(s.drop_last()), s.last().total_cost_micros as int)
    }
}

/// Execution-time total over `s`, clamped at the top of `u64`.
pub open spec fn sum_time(s: Seq<RunRecord>) -> int
    decreases s.len(),
{
    if s.len() == 0 {
        0
    } else {
        sat_add_u64(sum_time(s.drop_last()), s.last().execution_time_ms as int)
    }
}

/// Summarizes stored runs: counts, totals, and the mean execution time in
/// whole milliseconds.
pub fn compute_stats(records: &Vec<RunRecord>) -> (r: RunStats)
    requires
        records@.len() <= u64::MAX,
    ensures
        r.total_runs == records@.len(),
        r.successful_runs == count_success(records@),
        r.failed_runs == records@.len() - count_success(records@),
        r.total_tokens == sum_tokens(records@),
        r.total_cost_micros == sum_cost(records@),
        r.avg_execution_time_ms == if records@.len() == 0 {
            0int
        } else {
            sum_time(records@) / records@.len() as int
        },
{
    let mut successes: u64 = 0;
    let mut tokens: u64 = 0;
    let mut cost: u64 = 0;
    let mut time: u64 = 0;
    let mut i: usize = 0;
    while i < records.len()
        invariant
            i <= records@.len() <= u64::MAX,
            successes == count_success(records@.take(i as int)),
            tokens == sum_tokens(records@.take(i as int)),
            cost == sum_cost(records@.take(i as int)),
            time == sum_time(records@.take(i as int)),
            successes <= i,
        decreases records@.len() - i,
    {
        proof {
            assert(records@.take(i + 1).drop_last() =~= records@.take(i as int));
            assert(records@.take(i + 1).last() == records@[i as int]);
        }
        if records[i].success {
            successes = successes + 1;
        }
        tokens = tokens.saturating_add(records[i].total_tokens);
        cost = cost.saturating_add(records[i].total_cost_micros);
        time = time.saturating_add(records[i].execution_time_ms);
        i = i + 1;
    }
    proof {
        assert(records@.take(records@.len() as int) =~= records@);
    }
    let total: u64 = records.len() as u64;
    let avg: u64 = if total == 0 {
        0
    } else {
        time / total
    };
    RunStats {
        total_runs: total,
        successful_runs: successes,
        failed_runs: total - successes,
        total_tokens: tokens,
        total_cost_micros: cost,
        avg_execution_time_ms: avg,
    }
}

} // verus!
