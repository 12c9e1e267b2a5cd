//! Export of stored runs: the exact cell and row contents for CSV and
//! spreadsheet output, and the JSON text of a run list. Writing files is a
//! collaborator's job; what goes into them is decided and proved here.

use vstd::prelude::*;

use crate::storage::{RunRecord, StopReason};
use crate::text::{chars_string, dec_str_of, str_chars, u32_to_dec, u64_to_dec};
use crate::tools::json_escaped;

verus! {

/// Options for exporting runs.
#[derive(Debug, Clone, Copy, PartialEq, Eq, Structural)]
pub struct ExportOptions {
    /// Include tool call details.
    pub include_tool_calls: bool,
    /// Include thought entries.
    pub include_thoughts: bool,
    /// Pretty-print output, where the format has a pretty form.
    pub pretty_print: bool,
}

impl Default for ExportOptions {
    /// Everything off.
    fn default() -> (r: ExportOptions)
        ensures
            r.include_tool_calls == false,
            r.include_thoughts == false,
            r.pretty_print == false,
    {
        ExportOptions { include_tool_calls: false, include_thoughts: false, pretty_print: false }
    }
}

/// Epoch milliseconds within the range the calendar conversion accepts.
pub open spec fn valid_epoch_ms(t: int) -> bool {
    -8_000_000_000_000_000 <= t <= 8_000_000_000_000_000
}

/// The RFC 3339 text of an epoch-millisecond instant in UTC, as chrono
/// writes it: a function of the instant alone.
pub uninterp spec fn rfc3339_of(ms: int) -> Seq<char>;

/// Relies on chrono's `DateTime::from_timestamp_millis` and `to_rfc3339`:
/// the RFC 3339 text of the instant, in UTC.
#[verifier::external_body]
pub(crate) fn rfc3339_utc(ms: i64) -> (r: String)
    requires
        valid_epoch_ms(ms as int),
    ensures
        r@ == rfc3339_of(ms as int),
{
    match chrono::DateTime::from_timestamp_millis(ms) {
        Some(dt) => dt.to_rfc3339(),
        None => String::new(),
    }
}

/// `n` zero characters.
pub open spec fn zeros(n: int) -> Seq<char>
    decreases n,
{
    if n <= 0 {
        Seq::empty()
    } else {
        zeros(n - 1) + seq!['0']
    }
}

/// Ten to the `k`.
pub open spec fn pow10(k: int) -> int
    decreases k,
{
    if k <= 0 {
        1
    } else {
        10 * pow10(k - 1)
    }
}

/// Small numbers have short decimal texts.
pub proof fn lemma_dec_str_len(n: int, k: int)
    requires
        0 <= n < pow10(k),
        1 <= k,
    ensures
        1 <= dec_str_of(n).len() <= k,
    decreases k,
{
    if n < 10 {
    } else {
        assert(pow10(k) == 10 * pow10(k - 1));
        assert(n / 10 < pow10(k - 1)) by (nonlinear_arith)
            requires
                n < 10 * pow10(k - 1),
                n >= 10,
        ;
        assert(k >= 2) by {
            if k == 1 {
                assert(pow10(1) == 10);
            }
        }
        lemma_dec_str_len(n / 10, k - 1);
    }
}

/// Dollars with six decimal places, as the CSV cost column shows them:
/// the whole dollars, a point, and the millionths zero-padded to six digits.
pub open spec fn cost_text(micros: int) -> Seq<char> {
    let whole = micros / 1_000_000;
    let frac = micros % 1_000_000;
    dec_str_of(whole) + seq!['.'] + zeros(6 - dec_str_of(frac).len()) + dec_str_of(frac)
}

/// Writes a cost in millionths of a dollar as dollars with six decimals.
pub fn format_cost_micros(micros: u64) -> (r: String)
    ensures
        r@ == cost_text(micros as int),
{
    let whole: u64 = micros / 1_000_000;
    let frac: u64 = micros % 1_000_000;
    proof {
        assert(pow10(0) == 1);
        assert(pow10(1) == 10);
        assert(pow10(2) == 100);
        assert(pow10(3) == 1000);
        assert(pow10(4) == 10000);
        assert(pow10(5) == 100000);
        assert(pow10(6) == 1000000);
        lemma_dec_str_len(frac as int, 6);
    }
    let mut out = u64_to_dec(whole);
    out.append(".");
    proof {
        assert((".")@ =~= seq!['.']) by {
            reveal_strlit(".");
        }
    }
    let frac_text = u64_to_dec(frac);
    let frac_chars = str_chars(frac_text.as_str());
    let mut pad: usize = 6 - frac_chars.len();
    while pad > 0
        invariant
            out@ == dec_str_of(micros as int / 1_000_000) + seq!['.'] + zeros(
                6 - dec_str_of(micros as int % 1_000_000).len() - pad,
            ),
            pad <= 6 - dec_str_of(micros as int % 1_000_000).len(),
        decreases pad,
    {
        crate::text::push_char(&mut out, '0');
        pad = pad - 1;
        proof {
            let done = 6 - dec_str_of(micros as int % 1_000_000).len() - pad;
            assert(zeros(done) =~= zeros(done - 1) + seq!['0']);
            assert(out@ =~= dec_str_of(micros as int / 1_000_000) + seq!['.'] + zeros(done));
        }
    }
    out.append(frac_text.as_str());
    proof {
        assert(out@ =~= cost_text(micros as int));
    }
    out
}

/// "true" or "false", as `bool`'s display writes it.
pub open spec fn bool_text(b: bool) -> Seq<char> {
    if b {
        "true"@
    } else {
        "false"@
    }
}

/// The stored text of a stop reason.
pub open spec fn stop_text(sr: StopReason) -> Seq<char> {
    match sr {
        StopReason::Completed => "completed"@,
        StopReason::MaxIterations => "max_iterations"@,
        StopReason::Timeout => "timeout"@,
        StopReason::Error => "error"@,
        StopReason::UserStop => "user_stop"@,
    }
}

/// The text of an optional string column: the value, or empty.
pub open spec fn opt_text(o: Option<String>) -> Seq<char> {
    match o {
        Some(s) => s@,
        None => Seq::empty(),
    }
}

/// The CSV header row.
pub open spec fn csv_header() -> Seq<Seq<char>> {
    seq![
        "id"@,
        "agent_name"@,
        "agent_version"@,
        "input_prompt"@,
        "response"@,
        "success"@,
        "stop_reason"@,
        "error_message"@,
        "iterations"@,
        "total_tokens"@,
        "total_cost"@,
        "execution_time_ms"@,
        "llm_provider"@,
        "llm_model"@,
        "started_at"@,
        "completed_at"@,
        "tool_call_count"@,
        "thought_count"@,
    ]
}

/// The CSV row of one stored run.
pub open spec fn csv_row_of(run: RunRecord) -> Seq<Seq<char>> {
    seq![
        run.id@,
        run.agent_name@,
        opt_text(run.agent_version),
        run.input_prompt@,
        opt_text(run.response),
        bool_text(run.success),
        stop_text(run.stop_reason),
        opt_text(run.error_message),
        dec_str_of(run.iterations as int),
        dec_str_of(run.total_tokens as int),
        cost_text(run.total_cost_micros as int),
        dec_str_of(run.execution_time_ms as int),
        opt_text(run.llm_provider),
        opt_text(run.llm_model),
        rfc3339_of(run.started_at_ms as int),
        rfc3339_of(run.completed_at_ms as int),
        dec_str_of(run.tool_calls.len() as int),
        dec_str_of(run.thoughts.len() as int),
    ]
}

/// The views of a row of strings.
pub open spec fn row_views(row: Seq<String>) -> Seq<Seq<char>> {
    row.map(|_i: int, s: String| s@)
}

fn opt_string_text(o: &Option<String>) -> (r: String)
    ensures
        r@ == opt_text(*o),
{
    match o {
        Some(s) => s.clone(),
        None => String::new(),
    }
}

fn bool_string(b: bool) -> (r: String)
    ensures
        r@ == bool_text(b),
{
    if b {
        String::from_str("true")
    } else {
        String::from_str("false")
    }
}

/// Writes runs as CSV rows.
#[derive(Debug, Clone, Copy)]
pub struct CsvExporter;

impl CsvExporter {
    /// A CSV exporter.
    pub fn new() -> CsvExporter {
        CsvExporter
    }

    /// The rows of the CSV file: the header, then one row per run in order.
    pub fn rows(&self, runs: &Vec<RunRecord>) -> (r: Vec<Vec<String>>)
        requires
            forall|i: int|
                0 <= i < runs@.len() ==> valid_epoch_ms(#[trigger] runs@[i].started_at_ms as int)
                    && valid_epoch_ms(runs@[i].completed_at_ms as int),
        ensures
            r@.len() == 1 + runs@.len(),
            row_views(r@[0]@) == csv_header(),
            forall|i: int|
                0 <= i < runs@.len() ==> row_views(#[trigger] r@[i + 1]@) == csv_row_of(
                    runs@[i],
                ),
    {
        let mut out: Vec<Vec<String>> = Vec::new();
        let mut header: Vec<String> = Vec::new();
        header.push(String::from_str("id"));
        header.push(String::from_str("agent_name"));
        header.push(String::from_str("agent_version"));
        header.push(String::from_str("input_prompt"));
        header.push(String::from_str("response"));
        header.push(String::from_str("success"));
        header.push(String::from_str("stop_reason"));
        header.push(String::from_str("error_message"));
        header.push(String::from_str("iterations"));
        header.push(String::from_str("total_tokens"));
        header.push(String::from_str("total_cost"));
        header.push(String::from_str("execution_time_ms"));
        header.push(String::from_str("llm_provider"));
        header.push(String::from_str("llm_model"));
        header.push(String::from_str("started_at"));
        header.push(String::from_str("completed_at"));
        header.push(String::from_str("tool_call_count"));
        header.push(String::from_str("thought_count"));
        proof {
            assert(row_views(header@) =~= csv_header());
        }
        out.push(header);
        let mut i: usize = 0;
        while i < runs.len()
            invariant
                i <= runs@.len(),
                out@.len() == 1 + i,
                row_views(out@[0]@) == csv_header(),
                forall|k: int|
                    0 <= k < i ==> row_views(#[trigger] out@[k + 1]@) == csv_row_of(runs@[k]),
                forall|k: int|
                    0 <= k < runs@.len() ==> valid_epoch_ms(
                        #[trigger] runs@[k].started_at_ms as int,
                    ) && valid_epoch_ms(runs@[k].completed_at_ms as int),
            decreases runs@.len() - i,
        {
            let run = &runs[i];
            let mut row: Vec<String> = Vec::new();
            row.push(run.id.clone());
            row.push(run.agent_name.clone());
            row.push(opt_string_text(&run.agent_version));
            row.push(run.input_prompt.clone());
            row.push(opt_string_text(&run.response));
            row.push(bool_string(run.success));
            row.push(run.stop_reason.to_string());
            row.push(opt_string_text(&run.error_message));
            row.push(u32_to_dec(run.iterations));
            row.push(u64_to_dec(run.total_tokens));
            row.push(format_cost_micros(run.total_cost_micros));
            row.push(u64_to_dec(run.execution_time_ms));
            row.push(opt_string_text(&run.llm_provider));
            row.push(opt_string_text(&run.llm_model));
            row.push(rfc3339_utc(run.started_at_ms));
            row.push(rfc3339_utc(run.completed_at_ms));
            row.push(u64_to_dec(run.tool_calls.len() as u64));
            row.push(u64_to_dec(run.thoughts.len() as u64));
            proof {
                assert(row_views(row@) =~= csv_row_of(runs@[i as int]));
            }
            out.push(row);
            i = i + 1;
        }
        out
    }
}

/// One spreadsheet cell.
#[derive(Debug, Clone, PartialEq)]
pub enum CellValue {
    /// A text cell.
    Text(String),
    /// A numeric cell holding a whole number.
    Int(u64),
    /// A numeric cell holding a cost in millionths of a dollar, to be shown
    /// as dollars.
    CostMicros(u64),
}

/// A cell holds exactly this text.
pub open spec fn is_text(c: CellValue, s: Seq<char>) -> bool {
    c matches CellValue::Text(t) && t@ == s
}

/// The header of the runs sheet.
pub open spec fn excel_runs_header() -> Seq<Seq<char>> {
    seq![
        "ID"@,
        "Agent"@,
        "Version"@,
        "Input"@,
        "Response"@,
        "Success"@,
        "Stop Reason"@,
        "Error"@,
        "Iterations"@,
        "Tokens"@,
        "Cost"@,
        "Time (ms)"@,
        "Provider"@,
        "Model"@,
        "Started"@,
        "Completed"@,
    ]
}

/// The cells of one run's row on the runs sheet.
pub open spec fn excel_run_row_matches(row: Seq<CellValue>, run: RunRecord) -> bool {
    &&& row.len() == 16
    &&& is_text(row[0], run.id@)
    &&& is_text(row[1], run.agent_name@)
    &&& is_text(row[2], opt_text(run.agent_version))
    &&& is_text(row[3], run.input_prompt@)
    &&& is_text(row[4], opt_text(run.response))
    &&& is_text(row[5], if run.success { "Yes"@ } else { "No"@ })
    &&& is_text(row[6], stop_text(run.stop_reason))
    &&& is_text(row[7], opt_text(run.error_message))
    &&& row[8] == CellValue::Int(run.iterations as u64)
    &&& row[9] == CellValue::Int(run.total_tokens)
    &&& row[10] == CellValue::CostMicros(run.total_cost_micros)
    &&& row[11] == CellValue::Int(run.execution_time_ms)
    &&& is_text(row[12], opt_text(run.llm_provider))
    &&& is_text(row[13], opt_text(run.llm_model))
    &&& is_text(row[14], rfc3339_of(run.started_at_ms as int))
    &&& is_text(row[15], rfc3339_of(run.completed_at_ms as int))
}

/// The header of the tool-calls sheet.
pub open spec fn excel_tools_header() -> Seq<Seq<char>> {
    seq![
        "Run ID"@,
        "Sequence"@,
        "Tool Name"@,
        "Input"@,
        "Output"@,
        "Success"@,
        "Error"@,
        "Time (ms)"@,
    ]
}

/// The header of the thoughts sheet.
pub open spec fn excel_thoughts_header() -> Seq<Seq<char>> {
    seq!["Run ID"@, "Sequence"@, "Content"@]
}

/// One sheet of a workbook: its name and its cell grid, the header row
/// first.
#[derive(Debug, Clone, PartialEq)]
pub struct Sheet {
    pub name: String,
    pub rows: Vec<Vec<CellValue>>,
}

/// Writes runs as spreadsheet sheets.
#[derive(Debug, Clone, Copy)]
pub struct ExcelExporter;

impl ExcelExporter {
    /// An Excel exporter.
    pub fn new() -> ExcelExporter {
        ExcelExporter
    }

    /// The workbook's sheets: always the runs sheet, then a tool-calls
    /// sheet and a thoughts sheet when the options ask for them. On the
    /// extra sheets each run's entries follow the previous run's, in order.
    pub fn sheets(&self, runs: &Vec<RunRecord>, options: &ExportOptions) -> (r: Vec<Sheet>)
        requires
            forall|i: int|
                0 <= i < runs@.len() ==> valid_epoch_ms(#[trigger] runs@[i].started_at_ms as int)
                    && valid_epoch_ms(runs@[i].completed_at_ms as int),
        ensures
            r@.len() == 1 + (if options.include_tool_calls {
                1int
            } else {
                0int
            }) + (if options.include_thoughts {
                1int
            } else {
                0int
            }),
            r@[0].name@ == "Runs"@,
            r@[0].rows@.len() == 1 + runs@.len(),
            row_views_cells(r@[0].rows@[0]@) == excel_runs_header(),
            forall|i: int|
                0 <= i < runs@.len() ==> excel_run_row_matches(
                    #[trigger] r@[0].rows@[i + 1]@,
                    runs@[i],
                ),
            options.include_tool_calls ==> r@[1].name@ == "Tool Calls"@ && row_views_cells(
                r@[1].rows@[0]@,
            ) == excel_tools_header(),
            options.include_thoughts ==> r@[r@.len() - 1].name@ == "Thoughts"@ && row_views_cells(
                r@[r@.len() - 1].rows@[0]@,
            ) == excel_thoughts_header(),
    {
        let mut sheets: Vec<Sheet> = Vec::new();
        let mut rows: Vec<Vec<CellValue>> = Vec::new();
        let mut header: Vec<CellValue> = Vec::new();
        header.push(CellValue::Text(String::from_str("ID")));
        header.push(CellValue::Text(String::from_str("Agent")));
        header.push(CellValue::Text(String::from_str("Version")));
        header.push(CellValue::Text(String::from_str("Input")));
        header.push(CellValue::Text(String::from_str("Response")));
        header.push(CellValue::Text(String::from_str("Success")));
        header.push(CellValue::Text(String::from_str("Stop Reason")));
        header.push(CellValue::Text(String::from_str("Error")));
        header.push(CellValue::Text(String::from_str("Iterations")));
        header.push(CellValue::Text(String::from_str("Tokens")));
        header.push(CellValue::Text(String::from_str("Cost")));
        header.push(CellValue::Text(String::from_str("Time (ms)")));
        header.push(CellValue::Text(String::from_str("Provider")));
        header.push(CellValue::Text(String::from_str("Model")));
        header.push(CellValue::Text(String::from_str("Started")));
        header.push(CellValue::Text(String::from_str("Completed")));
        proof {
            assert(row_views_cells(header@) =~= excel_runs_header());
        }
        rows.push(header);
        let mut i: usize = 0;
        while i < runs.len()
            invariant
                i <= runs@.len(),
                rows@.len() == 1 + i,
                row_views_cells(rows@[0]@) == excel_runs_header(),
                forall|k: int|
                    0 <= k < i ==> excel_run_row_matches(#[trigger] rows@[k + 1]@, runs@[k]),
                forall|k: int|
                    0 <= k < runs@.len() ==> valid_epoch_ms(
                        #[trigger] runs@[k].started_at_ms as int,
                    ) && valid_epoch_ms(runs@[k].completed_at_ms as int),
            decreases runs@.len() - i,
        {
            let run = &runs[i];
            let mut row: Vec<CellValue> = Vec::new();
            row.push(CellValue::Text(run.id.clone()));
            row.push(CellValue::Text(run.agent_name.clone()));
            row.push(CellValue::Text(opt_string_text(&run.agent_version)));
            row.push(CellValue::Text(run.input_prompt.clone()));
            row.push(CellValue::Text(opt_string_text(&run.response)));
            row.push(
                CellValue::Text(
                    if run.success {
                        String::from_str("Yes")
                    } else {
                        String::from_str("No")
                    },
                ),
            );
            row.push(CellValue::Text(run.stop_reason.to_string()));
            row.push(CellValue::Text(opt_string_text(&run.error_message)));
            row.push(CellValue::Int(run.iterations as u64));
            row.push(CellValue::Int(run.total_tokens));
            row.push(CellValue::CostMicros(run.total_cost_micros));
            row.push(CellValue::Int(run.execution_time_ms));
            row.push(CellValue::Text(opt_string_text(&run.llm_provider)));
            row.push(CellValue::Text(opt_string_text(&run.llm_model)));
            row.push(CellValue::Text(rfc3339_utc(run.started_at_ms)));
            row.push(CellValue::Text(rfc3339_utc(run.completed_at_ms)));
            proof {
                assert(excel_run_row_matches(row@, runs@[i as int]));
            }
            rows.push(row);
            i = i + 1;
        }
        sheets.push(Sheet { name: String::from_str("Runs"), rows });
        if options.include_tool_calls {
            let mut trows: Vec<Vec<CellValue>> = Vec::new();
            let mut theader: Vec<CellValue> = Vec::new();
            theader.push(CellValue::Text(String::from_str("Run ID")));
            theader.push(CellValue::Text(String::from_str("Sequence")));
            theader.push(CellValue::Text(String::from_str("Tool Name")));
            theader.push(CellValue::Text(String::from_str("Input")));
            theader.push(CellValue::Text(String::from_str("Output")));
            theader.push(CellValue::Text(String::from_str("Success")));
            theader.push(CellValue::Text(String::from_str("Error")));
            theader.push(CellValue::Text(String::from_str("Time (ms)")));
            proof {
                assert(row_views_cells(theader@) =~= excel_tools_header());
            }
            trows.push(theader);
            let mut i: usize = 0;
            while i < runs.len()
                invariant
                    i <= runs@.len(),
                    trows@.len() >= 1,
                    row_views_cells(trows@[0]@) == excel_tools_header(),
                decreases runs@.len() - i,
            {
                let run = &runs[i];
                let mut j: usize = 0;
                while j < run.tool_calls.len()
                    invariant
                        j <= run.tool_calls@.len(),
                        trows@.len() >= 1,
                        row_views_cells(trows@[0]@) == excel_tools_header(),
                    decreases run.tool_calls@.len() - j,
                {
                    let tc = &run.tool_calls[j];
                    let mut row: Vec<CellValue> = Vec::new();
                    row.push(CellValue::Text(run.id.clone()));
                    row.push(CellValue::Int(tc.sequence_number as u64));
                    row.push(CellValue::Text(tc.tool_name.clone()));
                    row.push(CellValue::Text(tc.input.clone()));
                    row.push(CellValue::Text(opt_string_text(&tc.output)));
                    row.push(
                        CellValue::Text(
                            if tc.success {
                                String::from_str("Yes")
                            } else {
                                String::from_str("No")
                            },
                        ),
                    );
                    row.push(CellValue::Text(opt_string_text(&tc.error_message)));
                    row.push(CellValue::Int(tc.execution_time_ms));
                    trows.push(row);
                    j = j + 1;
                }
                i = i + 1;
            }
            sheets.push(Sheet { name: String::from_str("Tool Calls"), rows: trows });
        }
        if options.include_thoughts {
            let mut throws: Vec<Vec<CellValue>> = Vec::new();
            let mut theader: Vec<CellValue> = Vec::new();
            theader.push(CellValue::Text(String::from_str("Run ID")));
            theader.push(CellValue::Text(String::from_str("Sequence")));
            theader.push(CellValue::Text(String::from_str("Content")));
            proof {
                assert(row_views_cells(theader@) =~= excel_thoughts_header());
            }
            throws.push(theader);
            let mut i: usize = 0;
            while i < runs.len()
                invariant
                    i <= runs@.len(),
                    throws@.len() >= 1,
                    row_views_cells(throws@[0]@) == excel_thoughts_header(),
                decreases runs@.len() - i,
            {
                let run = &runs[i];
                let mut j: usize = 0;
                while j < run.thoughts.len()
                    invariant
                        j <= run.thoughts@.len(),
                        throws@.len() >= 1,
                        row_views_cells(throws@[0]@) == excel_thoughts_header(),
                    decreases run.thoughts@.len() - j,
                {
                    let th = &run.thoughts[j];
                    let mut row: Vec<CellValue> = Vec::new();
                    row.push(CellValue::Text(run.id.clone()));
                    row.push(CellValue::Int(th.sequence_number as u64));
                    row.push(CellValue::Text(th.content.clone()));
                    throws.push(row);
                    j = j + 1;
                }
                i = i + 1;
            }
            sheets.push(Sheet { name: String::from_str("Thoughts"), rows: throws });
        }
        sheets
    }
}

/// The views of a row of cells: texts keep their text, numeric cells keep a
/// decimal rendering for comparison.
pub open spec fn row_views_cells(row: Seq<CellValue>) -> Seq<Seq<char>> {
    row.map(
        |_i: int, c: CellValue|
            match c {
                CellValue::Text(t) => t@,
                CellValue::Int(n) => dec_str_of(n as int),
                CellValue::CostMicros(n) => cost_text(n as int),
            },
    )
}

/// A JSON string literal holding exactly `s`.
pub open spec fn jstr(s: Seq<char>) -> Seq<char> {
    seq!['"'] + json_escaped(s) + seq!['"']
}

/// A JSON string literal for an optional value, or `null`.
pub open spec fn jopt(o: Option<String>) -> Seq<char> {
    match o {
        Some(s) => jstr(s@),
        None => "null"@,
    }
}

/// The JSON text of one stored tool call.
pub open spec fn json_of_tool_call(t: crate::storage::ToolCallEntry) -> Seq<char> {
    let a = ("{\"sequence_number\":")@ + dec_str_of(t.sequence_number as int);
    let b = a + (",\"tool_name\":")@ + jstr(t.tool_name@);
    let c = b + (",\"input\":")@ + jstr(t.input@);
    let d = c + (",\"output\":")@ + jopt(t.output);
    let e = d + (",\"success\":")@ + bool_text(t.success);
    let f = e + (",\"execution_time_ms\":")@ + dec_str_of(t.execution_time_ms as int);
    f + ("}")@
}

/// The JSON text of one stored thought.
pub open spec fn json_of_thought(t: crate::storage::ThoughtEntry) -> Seq<char> {
    let a = ("{\"sequence_number\":")@ + dec_str_of(t.sequence_number as int);
    let b = a + (",\"content\":")@ + jstr(t.content@);
    b + ("}")@
}

/// The comma-separated items of a tool-call array.
pub open spec fn json_tool_call_items(s: Seq<crate::storage::ToolCallEntry>) -> Seq<char>
    decreases s.len(),
{
    if s.len() == 0 {
        Seq::empty()
    } else if s.len() == 1 {
        json_of_tool_call(s[0])
    } else {
        json_tool_call_items(s.drop_last()) + (",")@ + json_of_tool_call(s.last())
    }
}

/// The comma-separated items of a thoughts array.
pub open spec fn json_thought_items(s: Seq<crate::storage::ThoughtEntry>) -> Seq<char>
    decreases s.len(),
{
    if s.len() == 0 {
        Seq::empty()
    } else if s.len() == 1 {
        json_of_thought(s[0])
    } else {
        json_thought_items(s.drop_last()) + (",")@ + json_of_thought(s.last())
    }
}

/// The identity and outcome half of a run's JSON object.
pub open spec fn json_run_head(run: RunRecord) -> Seq<char> {
    let a = ("{\"id\":")@ + jstr(run.id@);
    let b = a + (",\"agent_name\":")@ + jstr(run.agent_name@);
    let c = b + (",\"agent_version\":")@ + jopt(run.agent_version);
    let d = c + (",\"input_prompt\":")@ + jstr(run.input_prompt@);
    let e = d + (",\"response\":")@ + jopt(run.response);
    let f = e + (",\"success\":")@ + bool_text(run.success);
    let g = f + (",\"stop_reason\":")@ + jstr(stop_text(run.stop_reason));
    g + (",\"error_message\":")@ + jopt(run.error_message)
}

/// The metric half of a run's JSON object.
pub open spec fn json_run_metrics(run: RunRecord) -> Seq<char> {
    let a = (",\"iterations\":")@ + dec_str_of(run.iterations as int);
    let b = a + (",\"total_tokens\":")@ + dec_str_of(run.total_tokens as int);
    let c = b + (",\"total_cost\":")@ + cost_text(run.total_cost_micros as int);
    let d = c + (",\"execution_time_ms\":")@ + dec_str_of(run.execution_time_ms as int);
    let e = d + (",\"llm_provider\":")@ + jopt(run.llm_provider);
    let f = e + (",\"llm_model\":")@ + jopt(run.llm_model);
    let g = f + (",\"started_at_ms\":")@ + crate::text::dec_str_i64_of(run.started_at_ms as int);
    g + (",\"completed_at_ms\":")@ + crate::text::dec_str_i64_of(run.completed_at_ms as int)
}

/// The optional tool-call array of a run's JSON object.
pub open spec fn json_run_tools(run: RunRecord, options: ExportOptions) -> Seq<char> {
    if options.include_tool_calls {
        (",\"tool_calls\":[")@ + json_tool_call_items(run.tool_calls@) + ("]")@
    } else {
        Seq::<char>::empty()
    }
}

/// The optional thought array of a run's JSON object.
pub open spec fn json_run_thoughts(run: RunRecord, options: ExportOptions) -> Seq<char> {
    if options.include_thoughts {
        (",\"thoughts\":[")@ + json_thought_items(run.thoughts@) + ("]")@
    } else {
        Seq::<char>::empty()
    }
}

/// The JSON text of one stored run; the tool-call and thought arrays appear
/// only when asked for.
pub open spec fn json_of_run(run: RunRecord, options: ExportOptions) -> Seq<char> {
    let a = json_run_head(run) + json_run_metrics(run);
    let b = a + json_run_tools(run, options);
    let c = b + json_run_thoughts(run, options);
    c + ("}")@
}

/// The comma-separated items of the run array.
pub open spec fn json_run_items(s: Seq<RunRecord>, options: ExportOptions) -> Seq<char>
    decreases s.len(),
{
    if s.len() == 0 {
        Seq::empty()
    } else if s.len() == 1 {
        json_of_run(s[0], options)
    } else {
        json_run_items(s.drop_last(), options) + (",")@ + json_of_run(s.last(), options)
    }
}

/// The JSON text of a run list.
pub open spec fn json_of_runs(s: Seq<RunRecord>, options: ExportOptions) -> Seq<char> {
    ("[")@ + json_run_items(s, options) + ("]")@
}

fn jstr_text(s: &str) -> (r: String)
    ensures
        r@ == jstr(s@),
{
    let mut buf: Vec<char> = Vec::new();
    buf.push('"');
    crate::tools::append_json_escaped(&mut buf, &str_chars(s));
    buf.push('"');
    proof {
        assert(buf@ =~= jstr(s@));
    }
    chars_string(&buf)
}

fn jopt_text(o: &Option<String>) -> (r: String)
    ensures
        r@ == jopt(*o),
{
    match o {
        Some(s) => jstr_text(s.as_str()),
        None => String::from_str("null"),
    }
}

fn tool_call_text(t: &crate::storage::ToolCallEntry) -> (r: String)
    ensures
        r@ == json_of_tool_call(*t),
{
    let mut out = String::from_str("{\"sequence_number\":");
    let seq_text = u32_to_dec(t.sequence_number);
    out.append(seq_text.as_str());
    out.append(",\"tool_name\":");
    let name = jstr_text(t.tool_name.as_str());
    out.append(name.as_str());
    out.append(",\"input\":");
    let input = jstr_text(t.input.as_str());
    out.append(input.as_str());
    out.append(",\"output\":");
    let output = jopt_text(&t.output);
    out.append(output.as_str());
    out.append(",\"success\":");
    let success = bool_string(t.success);
    out.append(success.as_str());
    out.append(",\"execution_time_ms\":");
    let time_text = u64_to_dec(t.execution_time_ms);
    out.append(time_text.as_str());
    out.append("}");
    out
}

fn thought_text(t: &crate::storage::ThoughtEntry) -> (r: String)
    ensures
        r@ == json_of_thought(*t),
{
    let mut out = String::from_str("{\"sequence_number\":");
    let seq_text = u32_to_dec(t.sequence_number);
    out.append(seq_text.as_str());
    out.append(",\"content\":");
    let content = jstr_text(t.content.as_str());
    out.append(content.as_str());
    out.append("}");
    out
}

fn run_head_text(run: &RunRecord) -> (r: String)
    ensures
        r@ == json_run_head(*run),
{
    let mut out = String::from_str("{\"id\":");
    let id = jstr_text(run.id.as_str());
    out.append(id.as_str());
    out.append(",\"agent_name\":");
    let name = jstr_text(run.agent_name.as_str());
    out.append(name.as_str());
    out.append(",\"agent_version\":");
    let version = jopt_text(&run.agent_version);
    out.append(version.as_str());
    out.append(",\"input_prompt\":");
    let input = jstr_text(run.input_prompt.as_str());
    out.append(input.as_str());
    out.append(",\"response\":");
    let response = jopt_text(&run.response);
    out.append(response.as_str());
    out.append(",\"success\":");
    let success = bool_string(run.success);
    out.append(success.as_str());
    out.append(",\"stop_reason\":");
    let stop = run.stop_reason.to_string();
    let stop_lit = jstr_text(stop.as_str());
    out.append(stop_lit.as_str());
    out.append(",\"error_message\":");
    let error = jopt_text(&run.error_message);
    out.append(error.as_str());
    out
}

fn run_metrics_text(run: &RunRecord) -> (r: String)
    ensures
        r@ == json_run_metrics(*run),
{
    let mut out = String::from_str(",\"iterations\":");
    let iter_text = u32_to_dec(run.iterations);
    out.append(iter_text.as_str());
    out.append(",\"total_tokens\":");
    let tok_text = u64_to_dec(run.total_tokens);
    out.append(tok_text.as_str());
    out.append(",\"total_cost\":");
    let cost = format_cost_micros(run.total_cost_micros);
    out.append(cost.as_str());
    out.append(",\"execution_time_ms\":");
    let time_text = u64_to_dec(run.execution_time_ms);
    out.append(time_text.as_str());
    out.append(",\"llm_provider\":");
    let provider = jopt_text(&run.llm_provider);
    out.append(provider.as_str());
    out.append(",\"llm_model\":");
    let model = jopt_text(&run.llm_model);
    out.append(model.as_str());
    out.append(",\"started_at_ms\":");
    let started = crate::text::i64_to_dec(run.started_at_ms);
    out.append(started.as_str());
    out.append(",\"completed_at_ms\":");
    let completed = crate::text::i64_to_dec(run.completed_at_ms);
    out.append(completed.as_str());
    out
}

fn run_tools_text(run: &RunRecord, options: &ExportOptions) -> (r: String)
    ensures
        r@ == json_run_tools(*run, *options),
{
    if !options.include_tool_calls {
        return String::new();
    }
    let mut items = String::new();
    let mut j: usize = 0;
    while j < run.tool_calls.len()
        invariant
            j <= run.tool_calls@.len(),
            items@ == json_tool_call_items(run.tool_calls@.take(j as int)),
        decreases run.tool_calls@.len() - j,
    {
        if j > 0 {
            items.append(",");
        }
        let item = tool_call_text(&run.tool_calls[j]);
        items.append(item.as_str());
        j = j + 1;
        proof {
            lemma_tc_items_step(run.tool_calls@, j as int);
        }
    }
    proof {
        assert(run.tool_calls@.take(run.tool_calls@.len() as int) =~= run.tool_calls@);
    }
    let mut out = String::from_str(",\"tool_calls\":[");
    out.append(items.as_str());
    out.append("]");
    out
}

fn run_thoughts_text(run: &RunRecord, options: &ExportOptions) -> (r: String)
    ensures
        r@ == json_run_thoughts(*run, *options),
{
    if !options.include_thoughts {
        return String::new();
    }
    let mut items = String::new();
    let mut j: usize = 0;
    while j < run.thoughts.len()
        invariant
            j <= run.thoughts@.len(),
            items@ == json_thought_items(run.thoughts@.take(j as int)),
        decreases run.thoughts@.len() - j,
    {
        if j > 0 {
            items.append(",");
        }
        let item = thought_text(&run.thoughts[j]);
        items.append(item.as_str());
        j = j + 1;
        proof {
            lemma_th_items_step(run.thoughts@, j as int);
        }
    }
    proof {
        assert(run.thoughts@.take(run.thoughts@.len() as int) =~= run.thoughts@);
    }
    let mut out = String::from_str(",\"thoughts\":[");
    out.append(items.as_str());
    out.append("]");
    out
}

fn run_text(run: &RunRecord, options: &ExportOptions) -> (r: String)
    ensures
        r@ == json_of_run(*run, *options),
{
    let mut out = run_head_text(run);
    let metrics = run_metrics_text(run);
    out.append(metrics.as_str());
    let tools = run_tools_text(run, options);
    out.append(tools.as_str());
    let thoughts = run_thoughts_text(run, options);
    out.append(thoughts.as_str());
    out.append("}");
    out
}

proof fn lemma_tc_items_step(s: Seq<crate::storage::ToolCallEntry>, j: int)
    requires
        1 <= j <= s.len(),
    ensures
        j == 1 ==> json_tool_call_items(s.take(1)) == json_of_tool_call(s[0]),
        j > 1 ==> json_tool_call_items(s.take(j)) == json_tool_call_items(s.take(j - 1)) + (",")@
            + json_of_tool_call(s[j - 1]),
{
    assert(s.take(j).drop_last() =~= s.take(j - 1));
    assert(s.take(j).last() == s[j - 1]);
    if j == 1 {
        assert(s.take(1)[0] == s[0]);
    }
}

proof fn lemma_th_items_step(s: Seq<crate::storage::ThoughtEntry>, j: int)
    requires
        1 <= j <= s.len(),
    ensures
        j == 1 ==> json_thought_items(s.take(1)) == json_of_thought(s[0]),
        j > 1 ==> json_thought_items(s.take(j)) == json_thought_items(s.take(j - 1)) + (",")@
            + json_of_thought(s[j - 1]),
{
    assert(s.take(j).drop_last() =~= s.take(j - 1));
    assert(s.take(j).last() == s[j - 1]);
    if j == 1 {
        assert(s.take(1)[0] == s[0]);
    }
}

proof fn lemma_run_items_step(s: Seq<RunRecord>, j: int, options: ExportOptions)
    requires
        1 <= j <= s.len(),
    ensures
        j == 1 ==> json_run_items(s.take(1), options) == json_of_run(s[0], options),
        j > 1 ==> json_run_items(s.take(j), options) == json_run_items(s.take(j - 1), options) + (
        ",")@ + json_of_run(s[j - 1], options),
{
    assert(s.take(j).drop_last() =~= s.take(j - 1));
    assert(s.take(j).last() == s[j - 1]);
    if j == 1 {
        assert(s.take(1)[0] == s[0]);
    }
}

/// Writes runs as one JSON array.
#[derive(Debug, Clone, Copy)]
pub struct JsonExporter;

impl JsonExporter {
    /// A JSON exporter.
    pub fn new() -> JsonExporter {
        JsonExporter
    }

    /// The JSON text of the run list, in compact form; a pretty printer may
    /// reflow it outside the library.
    pub fn to_json(&self, runs: &Vec<RunRecord>, options: &ExportOptions) -> (r: String)
        ensures
            r@ == json_of_runs(runs@, *options),
    {
        let mut items = String::new();
        let mut i: usize = 0;
        while i < runs.len()
            invariant
                i <= runs@.len(),
                items@ == json_run_items(runs@.take(i as int), *options),
            decreases runs@.len() - i,
        {
            if i > 0 {
                items.append(",");
            }
            let item = run_text(&runs[i], options);
            items.append(item.as_str());
            i = i + 1;
            proof {
                lemma_run_items_step(runs@, i as int, *options);
            }
        }
        proof {
            assert(runs@.take(runs@.len() as int) =~= runs@);
        }
        let mut out = String::from_str("[");
        out.append(items.as_str());
        out.append("]");
        out
    }
}

} // verus!
