//! The provider-independent half of the Anthropic client: message
//! conversion, cost and context-window estimation, error classification and
//! stream-event decisions. The HTTP and SSE plumbing lives outside the
//! library and calls in here.

use vstd::prelude::*;

use crate::llm::{FinishReason, LlmError, Message, MessageRole, StreamChunk};
use crate::text::{contains_seq, find_chars, lemma_find_seq_contains, str_chars, str_eq};

verus! {

broadcast use vstd::string::group_string_axioms;

/// One message in the provider's wire shape.
#[derive(Debug, Clone, PartialEq)]
pub struct AnthropicMessage {
    /// "user" or "assistant".
    pub role: String,
    pub content: String,
}

/// The wire role and content a transcript message converts to: system
/// messages leave the list for the separate system parameter, tool messages
/// become user messages with a marked prefix.
pub open spec fn converted_of(ms: Seq<Message>) -> Seq<(Seq<char>, Seq<char>)>
    decreases ms.len(),
{
    if ms.len() == 0 {
        Seq::empty()
    } else {
        converted_of(ms.drop_last()) + (match ms.last().role {
            MessageRole::System => Seq::<(Seq<char>, Seq<char>)>::empty(),
            MessageRole::User => seq![("user"@, ms.last().content@)],
            MessageRole::Assistant => seq![("assistant"@, ms.last().content@)],
            MessageRole::Tool => seq![("user"@, "Tool result: "@ + ms.last().content@)],
        })
    }
}

/// The content of the last system message, if any.
pub open spec fn last_system_of(ms: Seq<Message>) -> Option<Seq<char>>
    decreases ms.len(),
{
    if ms.len() == 0 {
        None
    } else if ms.last().role == MessageRole::System {
        Some(ms.last().content@)
    } else {
        last_system_of(ms.drop_last())
    }
}

/// Converts a transcript to the provider's shape: the last system message
/// becomes the system parameter, everything else becomes wire messages in
/// order.
pub fn convert_messages(messages: &Vec<Message>) -> (r: (Option<String>, Vec<AnthropicMessage>))
    ensures
        match r.0 {
            Some(s) => last_system_of(messages@) == Some(s@),
            None => last_system_of(messages@) is None,
        },
        r.1@.len() == converted_of(messages@).len(),
        forall|i: int|
            0 <= i < r.1@.len() ==> (#[trigger] r.1@[i].role@, r.1@[i].content@) == converted_of(
                messages@,
            )[i],
{
    let mut system: Option<String> = None;
    let mut converted: Vec<AnthropicMessage> = Vec::new();
    let mut i: usize = 0;
    while i < messages.len()
        invariant
            i <= messages@.len(),
            match system {
                Some(s) => last_system_of(messages@.take(i as int)) == Some(s@),
                None => last_system_of(messages@.take(i as int)) is None,
            },
            converted@.len() == converted_of(messages@.take(i as int)).len(),
            forall|k: int|
                0 <= k < converted@.len() ==> (
                #[trigger] converted@[k].role@,
                converted@[k].content@,
                ) == converted_of(messages@.take(i as int))[k],
        decreases messages@.len() - i,
    {
        proof {
            assert(messages@.take(i + 1).drop_last() =~= messages@.take(i as int));
            assert(messages@.take(i + 1).last() == messages@[i as int]);
        }
        let m = &messages[i];
        match m.role {
            MessageRole::System => {
                system = Some(m.content.clone());
            },
            MessageRole::User => {
                converted.push(
                    AnthropicMessage { role: String::from_str("user"), content: m.content.clone() },
                );
            },
            MessageRole::Assistant => {
                converted.push(
                    AnthropicMessage {
                        role: String::from_str("assistant"),
                        content: m.content.clone(),
                    },
                );
            },
            MessageRole::Tool => {
                let mut content = String::from_str("Tool result: ");
                content.append(m.content.as_str());
                converted.push(
                    AnthropicMessage { role: String::from_str("user"), content },
                );
            },
        }
        i = i + 1;
    }
    proof {
        assert(messages@.take(messages@.len() as int) =~= messages@);
    }
    (system, converted)
}

/// Per-token prices in hundredths of a millionth of a dollar, keyed on the
/// family part of the model name, with the middle tier as the default.
pub open spec fn price_centi_micros(model: Seq<char>) -> (int, int) {
    if contains_seq(model, "-3-5-sonnet"@) {
        (300, 1500)
    } else if contains_seq(model, "-3-opus"@) {
        (1500, 7500)
    } else if contains_seq(model, "-3-sonnet"@) {
        (300, 1500)
    } else if contains_seq(model, "-3-haiku"@) {
        (25, 125)
    } else {
        (300, 1500)
    }
}

/// Estimated cost in millionths of a dollar: tokens times the per-token
/// price, rounded down to a whole millionth.
pub open spec fn cost_micros_of(input_tokens: int, output_tokens: int, model: Seq<char>) -> int {
    let price = price_centi_micros(model);
    (input_tokens * price.0 + output_tokens * price.1) / 100
}

fn model_contains(model: &str, pat: &str) -> (r: bool)
    ensures
        r == contains_seq(model@, pat@),
{
    let chars = str_chars(model);
    let pattern = str_chars(pat);
    proof {
        lemma_find_seq_contains(model@, pat@);
    }
    match find_chars(&chars, &pattern, 0) {
        Some(_) => true,
        None => false,
    }
}

/// Estimates the cost of one call against the published per-million-token
/// prices, in millionths of a dollar.
pub fn calculate_cost_micros(input_tokens: u32, output_tokens: u32, model: &str) -> (r: u64)
    ensures
        r == cost_micros_of(input_tokens as int, output_tokens as int, model@),
{
    let (input_price, output_price): (u64, u64) = if model_contains(model, "-3-5-sonnet") {
        (300, 1500)
    } else if model_contains(model, "-3-opus") {
        (1500, 7500)
    } else if model_contains(model, "-3-sonnet") {
        (300, 1500)
    } else if model_contains(model, "-3-haiku") {
        (25, 125)
    } else {
        (300, 1500)
    };
    ((input_tokens as u64) * input_price + (output_tokens as u64) * output_price) / 100
}

/// Whether the model name carries the generation marker `-<digit>` as a
/// whole version component: followed by a dot or dash, or at the end.
pub open spec fn generation_marker(model: Seq<char>, d: char) -> bool {
    contains_seq(model, seq!['-', d, '.']) || contains_seq(model, seq!['-', d, '-']) || (model.len()
        >= 2 && model.subrange(model.len() - 2, model.len() as int) == seq!['-', d])
}

fn has_generation_marker(model: &str, d: char) -> (r: bool)
    ensures
        r == generation_marker(model@, d),
{
    let chars = str_chars(model);
    let dotted: Vec<char> = vec!['-', d, '.'];
    let dashed: Vec<char> = vec!['-', d, '-'];
    proof {
        assert(dotted@ =~= seq!['-', d, '.']);
        assert(dashed@ =~= seq!['-', d, '-']);
        lemma_find_seq_contains(model@, dotted@);
        lemma_find_seq_contains(model@, dashed@);
    }
    let has_dotted = match find_chars(&chars, &dotted, 0) {
        Some(_) => true,
        None => false,
    };
    let has_dashed = match find_chars(&chars, &dashed, 0) {
        Some(_) => true,
        None => false,
    };
    let n = chars.len();
    let at_end = n >= 2 && chars[n - 2] == '-' && chars[n - 1] == d;
    proof {
        if n >= 2 {
            assert(chars@.subrange(n - 2, n as int) =~= seq![chars@[n - 2], chars@[n - 1]]);
            if chars@[n - 2] == '-' && chars@[n - 1] == d {
                assert(chars@.subrange(n - 2, n as int) =~= seq!['-', d]);
            }
            if chars@.subrange(n - 2, n as int) == seq!['-', d] {
                assert(chars@.subrange(n - 2, n as int)[0] == '-');
                assert(chars@.subrange(n - 2, n as int)[1] == d);
            }
        }
    }
    has_dotted || has_dashed || at_end
}

/// The model's context window, keyed on the generation marker in the model
/// name; anything unknown is taken as the larger size.
pub open spec fn context_window_of(model: Seq<char>) -> u32 {
    if generation_marker(model, '3') {
        200_000
    } else if generation_marker(model, '2') {
        100_000
    } else {
        200_000
    }
}

/// The context window for a model name.
pub fn max_context_tokens(model: &str) -> (r: u32)
    ensures
        r == context_window_of(model@),
{
    if has_generation_marker(model, '3') {
        200_000
    } else if has_generation_marker(model, '2') {
        100_000
    } else {
        200_000
    }
}

/// Classifies a failed API response: bad credentials, rate limiting and bad
/// requests get their own variants, anything else keeps the status and body.
pub fn handle_error(status: u16, body: String) -> (r: LlmError)
    ensures
        (status == 401 ==> (r matches LlmError::Authentication(m) && m@ == "Invalid API key"@)),
        (status == 429 ==> (r matches LlmError::RateLimited { retry_after_secs } && retry_after_secs
            is None)),
        (status == 400 ==> (r matches LlmError::InvalidRequest(b) && b@ == body@)),
        (status != 401 && status != 429 && status != 400 ==> (r matches LlmError::Api {
            status: st,
            message,
        } && st == status && message@ == body@)),
{
    if status == 401 {
        LlmError::Authentication(String::from_str("Invalid API key"))
    } else if status == 429 {
        LlmError::RateLimited { retry_after_secs: None }
    } else if status == 400 {
        LlmError::InvalidRequest(body)
    } else {
        LlmError::Api { status, message: body }
    }
}

/// The finish reason a wire stop-reason text maps to.
pub open spec fn spec_finish_reason(stop: Option<Seq<char>>) -> FinishReason {
    match stop {
        Some(s) => if s == "end_turn"@ {
            FinishReason::Stop
        } else if s == "max_tokens"@ {
            FinishReason::Length
        } else if s == "stop_sequence"@ {
            FinishReason::Stop
        } else {
            FinishReason::Other
        },
        None => FinishReason::Other,
    }
}

/// Reads the wire stop reason: natural stops and stop sequences both finish
/// as `Stop`, the token limit as `Length`, anything else as `Other`.
pub fn finish_reason_from(stop: &Option<String>) -> (r: FinishReason)
    ensures
        r == spec_finish_reason(match stop {
            Some(s) => Some(s@),
            None => None::<Seq<char>>,
        }),
{
    match stop {
        Some(s) => {
            if str_eq(s.as_str(), "end_turn") {
                FinishReason::Stop
            } else if str_eq(s.as_str(), "max_tokens") {
                FinishReason::Length
            } else if str_eq(s.as_str(), "stop_sequence") {
                FinishReason::Stop
            } else {
                FinishReason::Other
            }
        },
        None => FinishReason::Other,
    }
}

/// The text at `outer.inner` of a JSON object written as `s`, as serde_json
/// reads it: a function of the text and the keys alone.
pub uninterp spec fn json_nested_string_of(s: Seq<char>, outer: Seq<char>, inner: Seq<char>) -> Option<
    Seq<char>,
>;

/// Relies on `serde_json::from_str` and `Value::get`: the string value two
/// keys deep in a JSON object, if there is one.
#[verifier::external_body]
pub(crate) fn json_nested_string_field(s: &str, outer: &str, inner: &str) -> (r: Option<String>)
    ensures
        match r {
            Some(v) => json_nested_string_of(s@, outer@, inner@) == Some(v@),
            None => json_nested_string_of(s@, outer@, inner@) is None,
        },
{
    match serde_json::from_str::<serde_json::Value>(s) {
        Ok(value) => match value.get(outer) {
            Some(level) => match level.get(inner) {
                Some(field) => field.as_str().map(|x| x.to_string()),
                None => None,
            },
            None => None,
        },
        Err(_) => None,
    }
}

/// What one server-sent event contributes to the stream: delta events whose
/// data carries `delta.text` yield a content chunk, the stop event yields
/// the final chunk, and everything else yields nothing.
pub fn parse_stream_event(event: &str, data: &str) -> (r: Option<StreamChunk>)
    ensures
        ({
            let ev = event@;
            if ev == "message_delta"@ || ev == "content_block_delta"@ {
                match json_nested_string_of(data@, "delta"@, "text"@) {
                    Some(text) => r matches Some(chunk) && chunk.content@ == text
                        && chunk.is_final == false,
                    None => r is None,
                }
            } else if ev == "message_stop"@ {
                (r matches Some(chunk) && chunk.content@.len() == 0 && chunk.is_final == true
                    && chunk.finish_reason == Some(FinishReason::Stop))
            } else {
                r is None
            }
        }),
{
    if str_eq(event, "message_delta") || str_eq(event, "content_block_delta") {
        match json_nested_string_field(data, "delta", "text") {
            Some(text) => Some(
                StreamChunk {
                    content: text,
                    tool_call_delta: None,
                    is_final: false,
                    usage: None,
                    finish_reason: None,
                },
            ),
            None => None,
        }
    } else if str_eq(event, "message_stop") {
        Some(
            StreamChunk {
                content: String::new(),
                tool_call_delta: None,
                is_final: true,
                usage: None,
                finish_reason: Some(FinishReason::Stop),
            },
        )
    } else {
        None
    }
}

/// Connection settings for the Anthropic API, ready for the collaborator
/// that owns the network.
#[derive(Debug, Clone, PartialEq)]
pub struct AnthropicSettings {
    pub api_key: String,
    pub base_url: String,
    pub timeout_secs: u64,
}

/// Builds Anthropic connection settings; the API key is required, the base
/// URL and timeout have defaults.
#[derive(Debug, Clone, PartialEq)]
pub struct AnthropicAdapterBuilder {
    pub api_key: Option<String>,
    pub base_url: Option<String>,
    pub timeout_secs: Option<u64>,
}

impl AnthropicAdapterBuilder {
    /// An empty builder.
    pub fn new() -> (r: AnthropicAdapterBuilder)
        ensures
            r.api_key is None,
            r.base_url is None,
            r.timeout_secs is None,
    {
        AnthropicAdapterBuilder { api_key: None, base_url: None, timeout_secs: None }
    }

    /// Sets the API key.
    pub fn api_key(self, api_key: String) -> (r: AnthropicAdapterBuilder)
        ensures
            r.api_key == Some(api_key),
            r.base_url == self.base_url,
            r.timeout_secs == self.timeout_secs,
    {
        AnthropicAdapterBuilder { api_key: Some(api_key), ..self }
    }

    /// Sets the base URL.
    pub fn base_url(self, base_url: String) -> (r: AnthropicAdapterBuilder)
        ensures
            r.base_url == Some(base_url),
            r.api_key == self.api_key,
            r.timeout_secs == self.timeout_secs,
    {
        AnthropicAdapterBuilder { base_url: Some(base_url), ..self }
    }

    /// Sets the request timeout in seconds.
    pub fn timeout(self, timeout_secs: u64) -> (r: AnthropicAdapterBuilder)
        ensures
            r.timeout_secs == Some(timeout_secs),
            r.api_key == self.api_key,
            r.base_url == self.base_url,
    {
        AnthropicAdapterBuilder { timeout_secs: Some(timeout_secs), ..self }
    }

    /// Builds the settings: the key must be set; a missing base URL becomes
    /// the public endpoint and a missing timeout becomes two minutes.
    pub fn build(self) -> (r: Result<AnthropicSettings, LlmError>)
        ensures
            match r {
                Ok(settings) => {
                    &&& self.api_key matches Some(k) && settings.api_key@ == k@
                    &&& (self.base_url matches Some(u) ==> settings.base_url@ == u@)
                    &&& (self.base_url is None ==> settings.base_url@
                        == "https://api.anthropic.com"@)
                    &&& settings.timeout_secs == (match self.timeout_secs {
                        Some(t) => t,
                        None => 120u64,
                    })
                },
                Err(e) => self.api_key is None && (e matches LlmError::InvalidRequest(m) && m@
                    == "API key is required"@),
            },
    {
        let api_key = match self.api_key {
            Some(k) => k,
            None => {
                return Err(LlmError::InvalidRequest(String::from_str("API key is required")));
            },
        };
        let base_url = match self.base_url {
            Some(u) => u,
            None => String::from_str("https://api.anthropic.com"),
        };
        let timeout_secs = match self.timeout_secs {
            Some(t) => t,
            None => 120,
        };
        Ok(AnthropicSettings { api_key, base_url, timeout_secs })
    }
}

/// The version header value the API expects.
pub fn anthropic_version() -> (r: String)
    ensures
        r@ == "2023-06-01"@,
{
    String::from_str("2023-06-01")
}

} // verus!
