//! The tool capability contract: inputs, outputs, errors, the registry that
//! maps action names to capabilities, and the built-in calculator and string
//! tools.

use vstd::prelude::*;

use crate::llm::current_time_millis;
use crate::text::{chars_string, dec_str_of, digit_char, str_chars, str_eq, u64_to_dec};

verus! {

/// Failure of a tool lookup or execution.
#[derive(Debug, Clone, PartialEq)]
pub enum ToolError {
    NotFound(String),
    InvalidInput(String),
    ExecutionFailed(String),
    Timeout(u64),
    Http(String),
    Filesystem(String),
    Json(String),
    PermissionDenied(String),
    NotImplemented(String),
    Other(String),
}

impl ToolError {
    /// A human-readable description of the failure.
    pub fn message(&self) -> (r: String)
        ensures
            (self matches ToolError::NotFound(s) ==> r@ == "Tool not found: "@ + s@),
            (self matches ToolError::InvalidInput(s) ==> r@ == "Invalid input: "@ + s@),
            (self matches ToolError::ExecutionFailed(s) ==> r@ == "Execution failed: "@ + s@),
            (self matches ToolError::Timeout(n) ==> r@ == "Timeout after "@ + dec_str_of(n as int)
                + "s"@),
            (self matches ToolError::Http(s) ==> r@ == "HTTP error: "@ + s@),
            (self matches ToolError::Filesystem(s) ==> r@ == "Filesystem error: "@ + s@),
            (self matches ToolError::Json(s) ==> r@ == "JSON error: "@ + s@),
            (self matches ToolError::PermissionDenied(s) ==> r@ == "Permission denied: "@ + s@),
            (self matches ToolError::NotImplemented(s) ==> r@ == "Not implemented: "@ + s@),
            (self matches ToolError::Other(s) ==> r@ == "Tool error: "@ + s@),
    {
        match self {
            ToolError::NotFound(s) => {
                let mut r = String::from_str("Tool not found: ");
                r.append(s.as_str());
                r
            },
            ToolError::InvalidInput(s) => {
                let mut r = String::from_str("Invalid input: ");
                r.append(s.as_str());
                r
            },
            ToolError::ExecutionFailed(s) => {
                let mut r = String::from_str("Execution failed: ");
                r.append(s.as_str());
                r
            },
            ToolError::Timeout(n) => {
                let mut r = String::from_str("Timeout after ");
                let secs = u64_to_dec(*n);
                r.append(secs.as_str());
                r.append("s");
                r
            },
            ToolError::Http(s) => {
                let mut r = String::from_str("HTTP error: ");
                r.append(s.as_str());
                r
            },
            ToolError::Filesystem(s) => {
                let mut r = String::from_str("Filesystem error: ");
                r.append(s.as_str());
                r
            },
            ToolError::Json(s) => {
                let mut r = String::from_str("JSON error: ");
                r.append(s.as_str());
                r
            },
            ToolError::PermissionDenied(s) => {
                let mut r = String::from_str("Permission denied: ");
                r.append(s.as_str());
                r
            },
            ToolError::NotImplemented(s) => {
                let mut r = String::from_str("Not implemented: ");
                r.append(s.as_str());
                r
            },
            ToolError::Other(s) => {
                let mut r = String::from_str("Tool error: ");
                r.append(s.as_str());
                r
            },
        }
    }
}

/// Output of one tool execution.
#[derive(Debug, Clone, PartialEq)]
pub struct ToolOutput {
    /// Main result content.
    pub content: String,
    /// Success or failure, as the tool reports it.
    pub success: bool,
    /// Optional structured metadata, as JSON text.
    pub metadata: Option<String>,
    /// Execution time in milliseconds.
    pub execution_time_ms: u64,
}

impl ToolOutput {
    /// A successful output without metadata.
    pub fn success(content: String, execution_time_ms: u64) -> (r: ToolOutput)
        ensures
            r.content@ == content@,
            r.success == true,
            r.metadata is None,
            r.execution_time_ms == execution_time_ms,
    {
        ToolOutput { content, success: true, metadata: None, execution_time_ms }
    }

    /// A successful output with metadata.
    pub fn success_with_metadata(content: String, metadata: String, execution_time_ms: u64) -> (r:
        ToolOutput)
        ensures
            r.content@ == content@,
            r.success == true,
            r.metadata matches Some(m) && m@ == metadata@,
            r.execution_time_ms == execution_time_ms,
    {
        ToolOutput { content, success: true, metadata: Some(metadata), execution_time_ms }
    }

    /// A failed output.
    pub fn failure(content: String, execution_time_ms: u64) -> (r: ToolOutput)
        ensures
            r.content@ == content@,
            r.success == false,
            r.metadata is None,
            r.execution_time_ms == execution_time_ms,
    {
        ToolOutput { content, success: false, metadata: None, execution_time_ms }
    }
}

/// JSON string escaping for one character.
pub open spec fn escaped_char(c: char) -> Seq<char> {
    if c == '"' {
        seq!['\\', '"']
    } else if c == '\\' {
        seq!['\\', '\\']
    } else if c == '\n' {
        seq!['\\', 'n']
    } else if c == '\r' {
        seq!['\\', 'r']
    } else if c == '\t' {
        seq!['\\', 't']
    } else if (c as u32) < 32 {
        seq!['\\', 'u', '0', '0', digit_char(((c as u32) / 16) as int), hex_digit_char(
            ((c as u32) % 16) as int,
        )]
    } else {
        seq![c]
    }
}

/// The character for a hexadecimal digit value.
pub open spec fn hex_digit_char(d: int) -> char {
    if d < 10 {
        digit_char(d)
    } else {
        ((87 + d) as u32) as char
    }
}

/// The body of a JSON string literal holding exactly the text `s`.
pub open spec fn json_escaped(s: Seq<char>) -> Seq<char>
    decreases s.len(),
{
    if s.len() == 0 {
        Seq::empty()
    } else {
        json_escaped(s.drop_last()) + escaped_char(s.last())
    }
}

fn hex_digit_char_of(d: u32) -> (c: char)
    requires
        d < 16,
    ensures
        c == hex_digit_char(d as int),
{
    match d {
        0 => '0',
        1 => '1',
        2 => '2',
        3 => '3',
        4 => '4',
        5 => '5',
        6 => '6',
        7 => '7',
        8 => '8',
        9 => '9',
        10 => 'a',
        11 => 'b',
        12 => 'c',
        13 => 'd',
        14 => 'e',
        _ => 'f',
    }
}

/// Appends the JSON escaping of `v` to `out`.
pub(crate) fn append_json_escaped(out: &mut Vec<char>, v: &Vec<char>)
    ensures
        final (out)@ == old(out)@ + json_escaped(v@),
{
    let mut i: usize = 0;
    while i < v.len()
        invariant
            i <= v.len(),
            out@ == old(out)@ + json_escaped(v@.take(i as int)),
        decreases v.len() - i,
    {
        let c = v[i];
        let u = c as u32;
        if c == '"' {
            out.push('\\');
            out.push('"');
        } else if c == '\\' {
            out.push('\\');
            out.push('\\');
        } else if c == '\n' {
            out.push('\\');
            out.push('n');
        } else if c == '\r' {
            out.push('\\');
            out.push('r');
        } else if c == '\t' {
            out.push('\\');
            out.push('t');
        } else if u < 32 {
            out.push('\\');
            out.push('u');
            out.push('0');
            out.push('0');
            out.push(match u / 16 {
                0 => '0',
                _ => '1',
            });
            out.push(hex_digit_char_of(u % 16));
        } else {
            out.push(c);
        }
        i = i + 1;
        proof {
            assert(v@.take(i as int).drop_last() =~= v@.take(i - 1));
            assert(v@.take(i as int).last() == v@[i - 1]);
        }
    }
    proof {
        assert(v@.take(v@.len() as int) =~= v@);
    }
}

/// Text parses as JSON, exactly as `serde_json::from_str` decides it.
pub uninterp spec fn json_valid(s: Seq<char>) -> bool;

/// Relies on `serde_json::from_str`: whether the text is well-formed JSON,
/// a function of the text alone.
#[verifier::external_body]
pub(crate) fn json_text_is_valid(s: &str) -> (r: bool)
    ensures
        r == json_valid(s@),
{
    serde_json::from_str::<serde_json::Value>(s).is_ok()
}

/// The string value at `key` of a JSON object written as `s`, as serde_json
/// reads it: a function of the text and the key alone.
pub uninterp spec fn json_string_field_of(s: Seq<char>, key: Seq<char>) -> Option<Seq<char>>;

/// Relies on `serde_json::from_str`, `Value::get` and `Value::as_str`: the
/// string value at `key` of the JSON object `s`, if there is one.
#[verifier::external_body]
pub(crate) fn json_string_field(s: &str, key: &str) -> (r: Option<String>)
    ensures
        match r {
            Some(v) => json_string_field_of(s@, key@) == Some(v@),
            None => json_string_field_of(s@, key@) is None,
        },
{
    match serde_json::from_str::<serde_json::Value>(s) {
        Ok(value) => match value.get(key) {
            Some(field) => field.as_str().map(|x| x.to_string()),
            None => None,
        },
        Err(_) => None,
    }
}

/// Input handed to a tool: either a JSON object the model wrote itself, or a
/// single free-form field the engine wrapped around raw argument text.
#[derive(Debug, Clone, PartialEq)]
pub enum ToolInput {
    /// Raw JSON object text that parsed successfully.
    Structured(String),
    /// A synthetic one-field object `{field: value}`.
    Wrapped { field: String, value: String },
}

/// The JSON text of a one-field object `{field: value}`.
pub open spec fn wrapped_json(field: Seq<char>, value: Seq<char>) -> Seq<char> {
    seq!['{', '"'] + json_escaped(field) + seq!['"', ':', '"'] + json_escaped(value) + seq!['"',
        '}',
    ]
}

impl ToolInput {
    /// The string value the input holds at `key`, if any.
    pub open spec fn spec_get_string(self, key: Seq<char>) -> Option<Seq<char>> {
        match self {
            ToolInput::Wrapped { field, value } => if field@ == key {
                Some(value@)
            } else {
                None
            },
            ToolInput::Structured(text) => json_string_field_of(text@, key),
        }
    }

    /// The input as JSON text, for observation and persistence.
    pub open spec fn spec_json_text(self) -> Seq<char> {
        match self {
            ToolInput::Structured(text) => text@,
            ToolInput::Wrapped { field, value } => wrapped_json(field@, value@),
        }
    }

    /// Reads the string value at `key`, if the input holds one.
    pub fn get_string(&self, key: &str) -> (r: Option<String>)
        ensures
            match r {
                Some(v) => self.spec_get_string(key@) == Some(v@),
                None => self.spec_get_string(key@) is None,
            },
    {
        match self {
            ToolInput::Wrapped { field, value } => {
                if str_eq(key, field.as_str()) {
                    Some(value.clone())
                } else {
                    None
                }
            },
            ToolInput::Structured(text) => json_string_field(text.as_str(), key),
        }
    }

    /// Writes the input out as JSON text.
    pub fn to_json_text(&self) -> (r: String)
        ensures
            r@ == self.spec_json_text(),
    {
        match self {
            ToolInput::Structured(text) => text.clone(),
            ToolInput::Wrapped { field, value } => {
                let mut out: Vec<char> = Vec::new();
                out.push('{');
                out.push('"');
                append_json_escaped(&mut out, &str_chars(field.as_str()));
                out.push('"');
                out.push(':');
                out.push('"');
                append_json_escaped(&mut out, &str_chars(value.as_str()));
                out.push('"');
                out.push('}');
                proof {
                    assert(out@ =~= wrapped_json(field@, value@));
                }
                chars_string(&out)
            },
        }
    }
}

/// A named, independently invocable unit of external action.
///
/// Built-in tools implement this in the library; collaborators add their own
/// implementations outside it.
pub trait Tool {
    /// Unique tool identifier.
    fn name(&self) -> String;

    /// Human-readable description of what the tool does.
    fn description(&self) -> String;

    /// JSON schema of the parameters the tool expects, as JSON text.
    fn parameters(&self) -> String;

    /// Runs the tool on the given input.
    fn execute(&self, input: &ToolInput) -> Result<ToolOutput, ToolError>;
}

/// The tool registered under `name` in `entries`, scanning from the front.
pub open spec fn lookup_in<T>(entries: Seq<(String, T)>, name: Seq<char>) -> Option<T>
    decreases entries.len(),
{
    if entries.len() == 0 {
        None
    } else if entries[0].0@ == name {
        Some(entries[0].1)
    } else {
        lookup_in(entries.drop_first(), name)
    }
}

/// Maps action names to tool capabilities; a later insert under the same name
/// shadows an earlier one.
#[derive(Debug, Clone)]
pub struct ToolRegistry<T> {
    entries: Vec<(String, T)>,
}

impl<T> ToolRegistry<T> {
    /// The tool registered under `name`, if any.
    pub closed spec fn spec_lookup(self, name: Seq<char>) -> Option<T> {
        lookup_in(self.entries@, name)
    }

    /// Whether some tool is registered under `name`.
    pub closed spec fn spec_contains(self, name: Seq<char>) -> bool {
        self.spec_lookup(name) is Some
    }

    /// How many entries the registry holds.
    pub closed spec fn spec_len(self) -> nat {
        self.entries@.len()
    }

    /// An empty registry.
    pub fn new() -> (r: ToolRegistry<T>)
        ensures
            r.spec_len() == 0,
            forall|n: Seq<char>| !r.spec_contains(n),
    {
        ToolRegistry { entries: Vec::new() }
    }

    /// Registers `tool` under `name`, shadowing any earlier entry.
    pub fn insert(&mut self, name: String, tool: T)
        ensures
            final (self).spec_lookup(name@) == Some(tool),
            final (self).spec_contains(name@),
            forall|n: Seq<char>|
                n != name@ ==> final (self).spec_lookup(n) == old(self).spec_lookup(n),
            forall|n: Seq<char>|
                n != name@ ==> final (self).spec_contains(n) == old(self).spec_contains(n),
            final (self).spec_len() == old(self).spec_len() + 1,
    {
        let ghost pre = self.entries@;
        self.entries.insert(0, (name, tool));
        proof {
            assert(self.entries@.drop_first() =~= pre);
        }
    }

    /// Looks up the tool registered under `name`.
    pub fn get(&self, name: &str) -> (r: Option<&T>)
        ensures
            match r {
                Some(t) => self.spec_lookup(name@) == Some(*t) && self.spec_contains(name@),
                None => self.spec_lookup(name@) is None && !self.spec_contains(name@),
            },
    {
        proof {
            assert(self.entries@.skip(0) =~= self.entries@);
        }
        let mut i: usize = 0;
        while i < self.entries.len()
            invariant
                i <= self.entries@.len(),
                lookup_in(self.entries@, name@) == lookup_in(self.entries@.skip(i as int), name@),
            decreases self.entries@.len() - i,
        {
            proof {
                assert(self.entries@.skip(i as int)[0] == self.entries@[i as int]);
                assert(self.entries@.skip(i as int).drop_first() =~= self.entries@.skip(i + 1));
            }
            if str_eq(name, self.entries[i].0.as_str()) {
                return Some(&self.entries[i].1);
            }
            i = i + 1;
        }
        proof {
            assert(self.entries@.skip(i as int).len() == 0);
        }
        None
    }

    /// How many tools are registered.
    pub fn len(&self) -> (r: usize)
        ensures
            r == self.spec_len(),
    {
        self.entries.len()
    }
}

/// Times a tool execution against the system clock.
#[derive(Debug, Clone, Copy)]
pub struct ToolTimer {
    /// The clock reading when the timer started.
    pub started_at_ms: u64,
}

impl ToolTimer {
    /// Starts a timer at the current clock reading.
    pub fn start() -> ToolTimer {
        ToolTimer { started_at_ms: current_time_millis() }
    }

    /// Milliseconds from `started_at_ms` to `now_ms`, clamped below at zero.
    pub fn elapsed_ms_at(&self, now_ms: u64) -> (r: u64)
        ensures
            r == if now_ms >= self.started_at_ms {
                now_ms - self.started_at_ms
            } else {
                0
            },
    {
        if now_ms >= self.started_at_ms {
            now_ms - self.started_at_ms
        } else {
            0
        }
    }

    /// Milliseconds since the timer started, by the system clock.
    pub fn elapsed_ms(&self) -> u64 {
        self.elapsed_ms_at(current_time_millis())
    }
}

/// Relies on `str::to_uppercase` from std: the result depends on the
/// characters alone.
pub uninterp spec fn upper_of(s: Seq<char>) -> Seq<char>;

/// Relies on `str::to_lowercase` from std: the result depends on the
/// characters alone.
pub uninterp spec fn lower_of(s: Seq<char>) -> Seq<char>;

/// Relies on `str::to_uppercase`: Unicode uppercase of the text.
#[verifier::external_body]
pub(crate) fn to_upper(s: &str) -> (r: String)
    ensures
        r@ == upper_of(s@),
        s@.len() == 0 ==> r@.len() == 0,
{
    s.to_uppercase()
}

/// Relies on `str::to_lowercase`: Unicode lowercase of the text.
#[verifier::external_body]
pub(crate) fn to_lower(s: &str) -> (r: String)
    ensures
        r@ == lower_of(s@),
        s@.len() == 0 ==> r@.len() == 0,
{
    s.to_lowercase()
}

/// Outcome of trying one operator position in an arithmetic expression.
#[derive(Debug, Clone, Copy, PartialEq, Eq, Structural)]
pub enum OpAttempt {
    /// The operator does not split the expression into two numbers.
    NotApplicable,
    /// Both sides parsed and the operation has an exact result.
    Value(i64),
    /// Both sides parsed but the operation has no exact result here
    /// (division by zero, an inexact quotient, or overflow).
    Failed,
}

pub open spec fn opt_fit(o: Option<i64>) -> OpAttempt {
    match o {
        Some(v) => OpAttempt::Value(v),
        None => OpAttempt::Failed,
    }
}

/// Result of `a op b` over exact integer arithmetic.
pub open spec fn apply_op(op: char, a: i64, b: i64) -> OpAttempt {
    if op == '+' {
        opt_fit(a.checked_add(b))
    } else if op == '-' {
        opt_fit(a.checked_sub(b))
    } else if op == '*' {
        opt_fit(a.checked_mul(b))
    } else if op == '/' {
        if b == 0 {
            OpAttempt::Failed
        } else {
            match a.checked_rem(b) {
                None => OpAttempt::Failed,
                Some(rem) => if rem == 0 {
                    opt_fit(a.checked_div(b))
                } else {
                    OpAttempt::Failed
                },
            }
        }
    } else {
        OpAttempt::Failed
    }
}

/// Tries to read `s` as `left op right`, splitting at the last occurrence of
/// `op`; a leading minus sign is not a split point.
pub open spec fn attempt_op(s: Seq<char>, op: char) -> OpAttempt {
    match crate::text::rfind_char(s, op) {
        None => OpAttempt::NotApplicable,
        Some(p) => if op == '-' && p == 0 {
            OpAttempt::NotApplicable
        } else {
            match (crate::text::spec_parse_i64(s.take(p)), crate::text::spec_parse_i64(
                s.skip(p + 1),
            )) {
                (Some(a), Some(b)) => apply_op(op, a, b),
                _ => OpAttempt::NotApplicable,
            }
        },
    }
}

/// Value of an expression after space removal: the first operator (tried in
/// the order `+`, `-`, `*`, `/`) that splits it into two numbers decides, and
/// otherwise the whole text must be one number.
pub open spec fn spec_evaluate(expression: Seq<char>) -> Option<i64> {
    let s = crate::text::without_spaces(expression);
    match attempt_op(s, '+') {
        OpAttempt::Value(v) => Some(v),
        OpAttempt::Failed => None,
        OpAttempt::NotApplicable => match attempt_op(s, '-') {
            OpAttempt::Value(v) => Some(v),
            OpAttempt::Failed => None,
            OpAttempt::NotApplicable => match attempt_op(s, '*') {
                OpAttempt::Value(v) => Some(v),
                OpAttempt::Failed => None,
                OpAttempt::NotApplicable => match attempt_op(s, '/') {
                    OpAttempt::Value(v) => Some(v),
                    OpAttempt::Failed => None,
                    OpAttempt::NotApplicable => crate::text::spec_parse_i64(s),
                },
            },
        },
    }
}

fn attempt_op_chars(s: &Vec<char>, op: char) -> (r: OpAttempt)
    ensures
        r == attempt_op(s@, op),
{
    match crate::text::rfind_char_at(s, op) {
        None => OpAttempt::NotApplicable,
        Some(p) => {
            if op == '-' && p == 0 {
                return OpAttempt::NotApplicable;
            }
            let n = s.len();
            proof {
                crate::text::lemma_rfind_char_bound(s@, op, p as int);
                assert(p < n);
            }
            let left = crate::text::sub_chars(s, 0, p);
            let right = crate::text::sub_chars(s, p + 1, n);
            proof {
                assert(left@ =~= s@.take(p as int));
                assert(right@ =~= s@.skip(p + 1));
            }
            let a = match crate::text::parse_i64_chars(&left) {
                Some(a) => a,
                None => {
                    return OpAttempt::NotApplicable;
                },
            };
            let b = match crate::text::parse_i64_chars(&right) {
                Some(b) => b,
                None => {
                    return OpAttempt::NotApplicable;
                },
            };
            if op == '+' {
                match a.checked_add(b) {
                    Some(v) => OpAttempt::Value(v),
                    None => OpAttempt::Failed,
                }
            } else if op == '-' {
                match a.checked_sub(b) {
                    Some(v) => OpAttempt::Value(v),
                    None => OpAttempt::Failed,
                }
            } else if op == '*' {
                match a.checked_mul(b) {
                    Some(v) => OpAttempt::Value(v),
                    None => OpAttempt::Failed,
                }
            } else if op == '/' {
                if b == 0 {
                    OpAttempt::Failed
                } else {
                    match a.checked_rem(b) {
                        None => OpAttempt::Failed,
                        Some(rem) => {
                            if rem == 0 {
                                match a.checked_div(b) {
                                    Some(v) => OpAttempt::Value(v),
                                    None => OpAttempt::Failed,
                                }
                            } else {
                                OpAttempt::Failed
                            }
                        },
                    }
                }
            } else {
                OpAttempt::Failed
            }
        },
    }
}

/// Pure arithmetic over exact integers: the calculator built-in.
#[derive(Debug, Clone, Copy, Default)]
pub struct CalculatorTool;

impl CalculatorTool {
    /// A calculator tool.
    pub fn new() -> CalculatorTool {
        CalculatorTool
    }

    /// Evaluates a simple binary arithmetic expression.
    pub fn evaluate(&self, expression: &str) -> (r: Result<i64, ToolError>)
        ensures
            match r {
                Ok(v) => spec_evaluate(expression@) == Some(v),
                Err(e) => spec_evaluate(expression@) is None && (e matches
                ToolError::InvalidInput(m) && m@ == "Unable to evaluate expression: "@
                    + crate::text::without_spaces(expression@)
                    + ". Supported: simple arithmetic with +, -, *, /"@),
            },
    {
        let stripped = crate::text::remove_spaces(&str_chars(expression));
        let mut outcome: OpAttempt = attempt_op_chars(&stripped, '+');
        if matches!(outcome, OpAttempt::NotApplicable) {
            outcome = attempt_op_chars(&stripped, '-');
        }
        if matches!(outcome, OpAttempt::NotApplicable) {
            outcome = attempt_op_chars(&stripped, '*');
        }
        if matches!(outcome, OpAttempt::NotApplicable) {
            outcome = attempt_op_chars(&stripped, '/');
        }
        let single: Option<i64> = if matches!(outcome, OpAttempt::NotApplicable) {
            crate::text::parse_i64_chars(&stripped)
        } else {
            None
        };
        match outcome {
            OpAttempt::Value(v) => Ok(v),
            _ => {
                match single {
                    Some(v) => Ok(v),
                    None => {
                        let mut m = String::from_str("Unable to evaluate expression: ");
                        let shown = chars_string(&stripped);
                        m.append(shown.as_str());
                        m.append(". Supported: simple arithmetic with +, -, *, /");
                        Err(ToolError::InvalidInput(m))
                    },
                }
            },
        }
    }

    /// Runs the calculator on a tool input carrying an `expression` field.
    pub fn run(&self, input: &ToolInput) -> (r: Result<ToolOutput, ToolError>)
        ensures
            match input.spec_get_string("expression"@) {
                None => r matches Err(ToolError::InvalidInput(m)) && m@
                    == "Missing 'expression' field"@,
                Some(e) => match spec_evaluate(e) {
                    Some(v) => r matches Ok(out) && out.content@ == e + " = "@
                        + crate::text::dec_str_i64_of(v as int) && out.success == true,
                    None => r matches Err(ToolError::InvalidInput(m)) && m@
                        == "Unable to evaluate expression: "@ + crate::text::without_spaces(e)
                        + ". Supported: simple arithmetic with +, -, *, /"@,
                },
            },
    {
        let timer = ToolTimer::start();
        let expression = match input.get_string("expression") {
            Some(e) => e,
            None => {
                return Err(ToolError::InvalidInput(String::from_str(
                    "Missing 'expression' field",
                )));
            },
        };
        let value = match self.evaluate(expression.as_str()) {
            Ok(v) => v,
            Err(e) => {
                return Err(e);
            },
        };
        let shown = crate::text::i64_to_dec(value);
        let mut content = expression.clone();
        content.append(" = ");
        content.append(shown.as_str());
        let mut metadata = String::from_str("{\"expression\":\"");
        let escaped = {
            let mut buf: Vec<char> = Vec::new();
            append_json_escaped(&mut buf, &str_chars(expression.as_str()));
            chars_string(&buf)
        };
        metadata.append(escaped.as_str());
        metadata.append("\",\"result\":");
        metadata.append(shown.as_str());
        metadata.append(",\"operation\":\"calculate\"}");
        Ok(ToolOutput::success_with_metadata(content, metadata, timer.elapsed_ms()))
    }
}

impl Tool for CalculatorTool {
    fn name(&self) -> (r: String)
        ensures
            r@ == "calculator"@,
    {
        String::from_str("calculator")
    }

    fn description(&self) -> String {
        String::from_str(
            "Perform arithmetic calculations. Supports: addition (+), subtraction (-), multiplication (*), division (/).",
        )
    }

    fn parameters(&self) -> String {
        String::from_str(
            "{\"type\":\"object\",\"properties\":{\"expression\":{\"type\":\"string\",\"description\":\"Mathematical expression to evaluate (e.g., '2 + 2', '10 * 5', '100 / 4')\"}},\"required\":[\"expression\"]}",
        )
    }

    fn execute(&self, input: &ToolInput) -> (r: Result<ToolOutput, ToolError>)
        ensures
            match input.spec_get_string("expression"@) {
                None => r matches Err(ToolError::InvalidInput(m)) && m@
                    == "Missing 'expression' field"@,
                Some(e) => match spec_evaluate(e) {
                    Some(v) => r matches Ok(out) && out.content@ == e + " = "@
                        + crate::text::dec_str_i64_of(v as int) && out.success == true,
                    None => r matches Err(ToolError::InvalidInput(m)) && m@
                        == "Unable to evaluate expression: "@ + crate::text::without_spaces(e)
                        + ". Supported: simple arithmetic with +, -, *, /"@,
                },
            },
    {
        self.run(input)
    }
}

/// String manipulation built-in: uppercase, lowercase, reverse, length, trim
/// and replace.
#[derive(Debug, Clone, Copy, Default)]
pub struct StringTool;

impl StringTool {
    /// A string tool.
    pub fn new() -> StringTool {
        StringTool
    }
}

/// What the string tool returns for operation `op` on text `t`, given the
/// optional `find` and `replace_with` fields.
pub open spec fn spec_string_op(
    op: Seq<char>,
    t: Seq<char>,
    find: Option<Seq<char>>,
    replace_with: Option<Seq<char>>,
) -> Option<Seq<char>> {
    if op == "uppercase"@ {
        Some(upper_of(t))
    } else if op == "lowercase"@ {
        Some(lower_of(t))
    } else if op == "reverse"@ {
        Some(t.reverse())
    } else if op == "length"@ {
        Some(dec_str_of((vstd::utf8::encode_utf8(t).len() as usize) as int))
    } else if op == "trim"@ {
        Some(crate::text::trim_spec(t))
    } else if op == "replace"@ {
        match (find, replace_with) {
            (Some(f), Some(w)) => Some(crate::text::str_replace_of(t, f, w)),
            _ => None,
        }
    } else {
        None
    }
}

/// The string tool's metadata: the operation and the byte lengths of the
/// input and output texts, as JSON text.
pub open spec fn string_tool_metadata(op: Seq<char>, input_len: int, output_len: int) -> Seq<
    char,
> {
    let a = ("{\"operation\":\"")@ + json_escaped(op);
    let b = a + ("\",\"input_length\":")@ + dec_str_of(input_len);
    b + (",\"output_length\":")@ + dec_str_of(output_len) + ("}")@
}

impl Tool for StringTool {
    fn name(&self) -> (r: String)
        ensures
            r@ == "string"@,
    {
        String::from_str("string")
    }

    fn description(&self) -> String {
        String::from_str(
            "String manipulation operations. Supports: uppercase, lowercase, reverse, length, trim, replace.",
        )
    }

    fn parameters(&self) -> String {
        String::from_str(
            "{\"type\":\"object\",\"properties\":{\"operation\":{\"type\":\"string\",\"enum\":[\"uppercase\",\"lowercase\",\"reverse\",\"length\",\"trim\",\"replace\"]},\"text\":{\"type\":\"string\"},\"find\":{\"type\":\"string\"},\"replace_with\":{\"type\":\"string\"}},\"required\":[\"operation\",\"text\"]}",
        )
    }

    fn execute(&self, input: &ToolInput) -> (r: Result<ToolOutput, ToolError>)
        ensures
            ({
                let op = input.spec_get_string("operation"@);
                let text = input.spec_get_string("text"@);
                let find = input.spec_get_string("find"@);
                let replace_with = input.spec_get_string("replace_with"@);
                match op {
                    None => r matches Err(ToolError::InvalidInput(m)) && m@
                        == "Missing 'operation' field"@,
                    Some(o) => match text {
                        None => r matches Err(ToolError::InvalidInput(m)) && m@
                            == "Missing 'text' field"@,
                        Some(t) => match spec_string_op(o, t, find, replace_with) {
                            Some(out_text) => r matches Ok(out) && out.content@ == out_text
                                && out.success == true && (out.metadata matches Some(md) && md@
                                == string_tool_metadata(
                                o,
                                (vstd::utf8::encode_utf8(t).len() as usize) as int,
                                (vstd::utf8::encode_utf8(out_text).len() as usize) as int,
                            )),
                            None => r matches Err(ToolError::InvalidInput(m)) && m@ == (if o
                                == "replace"@ {
                                if find is None {
                                    "Missing 'find' field for replace operation"@
                                } else {
                                    "Missing 'replace_with' field for replace operation"@
                                }
                            } else {
                                "Unknown operation: "@ + o
                            }),
                        },
                    },
                }
            }),
    {
        let timer = ToolTimer::start();
        let operation = match input.get_string("operation") {
            Some(o) => o,
            None => {
                return Err(ToolError::InvalidInput(String::from_str(
                    "Missing 'operation' field",
                )));
            },
        };
        let text = match input.get_string("text") {
            Some(t) => t,
            None => {
                return Err(ToolError::InvalidInput(String::from_str("Missing 'text' field")));
            },
        };
        let op = operation.as_str();
        let result: String = if str_eq(op, "uppercase") {
            to_upper(text.as_str())
        } else if str_eq(op, "lowercase") {
            to_lower(text.as_str())
        } else if str_eq(op, "reverse") {
            let cs = str_chars(text.as_str());
            let mut rev: Vec<char> = Vec::new();
            let mut j: usize = cs.len();
            while j > 0
                invariant
                    j <= cs@.len(),
                    rev@ =~= cs@.skip(j as int).reverse(),
                decreases j,
            {
                j = j - 1;
                rev.push(cs[j]);
                proof {
                    assert(cs@.skip(j as int) =~= seq![cs@[j as int]] + cs@.skip(j + 1));
                    assert(cs@.skip(j as int).reverse() =~= cs@.skip(j + 1).reverse().push(
                        cs@[j as int],
                    ));
                }
            }
            proof {
                assert(cs@.skip(0) =~= cs@);
            }
            chars_string(&rev)
        } else if str_eq(op, "length") {
            u64_to_dec(text.as_str().len() as u64)
        } else if str_eq(op, "trim") {
            chars_string(&crate::text::trim_chars(&str_chars(text.as_str())))
        } else if str_eq(op, "replace") {
            let find = match input.get_string("find") {
                Some(f) => f,
                None => {
                    return Err(ToolError::InvalidInput(String::from_str(
                        "Missing 'find' field for replace operation",
                    )));
                },
            };
            let replace_with = match input.get_string("replace_with") {
                Some(w) => w,
                None => {
                    return Err(ToolError::InvalidInput(String::from_str(
                        "Missing 'replace_with' field for replace operation",
                    )));
                },
            };
            chars_string(
                &crate::text::replace_chars(
                    &str_chars(text.as_str()),
                    &str_chars(find.as_str()),
                    &str_chars(replace_with.as_str()),
                ),
            )
        } else {
            let mut m = String::from_str("Unknown operation: ");
            m.append(op);
            return Err(ToolError::InvalidInput(m));
        };
        let mut metadata = String::from_str("{\"operation\":\"");
        let escaped_op = {
            let mut buf: Vec<char> = Vec::new();
            append_json_escaped(&mut buf, &str_chars(op));
            chars_string(&buf)
        };
        metadata.append(escaped_op.as_str());
        metadata.append("\",\"input_length\":");
        let input_len = u64_to_dec(text.as_str().len() as u64);
        metadata.append(input_len.as_str());
        metadata.append(",\"output_length\":");
        let output_len = u64_to_dec(result.as_str().len() as u64);
        metadata.append(output_len.as_str());
        metadata.append("}");
        Ok(ToolOutput::success_with_metadata(result, metadata, timer.elapsed_ms()))
    }
}

} // verus!
