//! Conversation types and the uniform client contract for language models.
//!
//! Monetary amounts are integers counted in millionths of a dollar, and
//! sampling parameters are integers counted in thousandths, so that the
//! accumulators in the execution context stay exact.

use vstd::prelude::*;

verus! {

/// Role of a message in the conversation.
#[derive(Debug, Clone, Copy, PartialEq, Eq, Structural)]
pub enum MessageRole {
    System,
    User,
    Assistant,
    Tool,
}

/// One role-tagged entry of the transcript.
#[derive(Debug, Clone, PartialEq)]
pub struct Message {
    pub role: MessageRole,
    pub content: String,
    pub name: Option<String>,
    pub tool_calls: Option<Vec<ToolCall>>,
    pub tool_call_id: Option<String>,
}

/// Tool call requested by the assistant, with its arguments as JSON text.
#[derive(Debug, Clone, PartialEq)]
pub struct ToolCall {
    pub id: String,
    pub name: String,
    pub arguments: String,
}

impl Message {
    /// A system message with the given content.
    pub fn system(content: String) -> (r: Message)
        ensures
            r.role == MessageRole::System,
            r.content@ == content@,
            r.name is None,
            r.tool_calls is None,
            r.tool_call_id is None,
    {
        Message {
            role: MessageRole::System,
            content,
            name: None,
            tool_calls: None,
            tool_call_id: None,
        }
    }

    /// A user message with the given content.
    pub fn user(content: String) -> (r: Message)
        ensures
            r.role == MessageRole::User,
            r.content@ == content@,
            r.name is None,
            r.tool_calls is None,
            r.tool_call_id is None,
    {
        Message { role: MessageRole::User, content, name: None, tool_calls: None, tool_call_id: None }
    }

    /// An assistant message with the given content.
    pub fn assistant(content: String) -> (r: Message)
        ensures
            r.role == MessageRole::Assistant,
            r.content@ == content@,
            r.name is None,
            r.tool_calls is None,
            r.tool_call_id is None,
    {
        Message {
            role: MessageRole::Assistant,
            content,
            name: None,
            tool_calls: None,
            tool_call_id: None,
        }
    }

    /// A tool message carrying a result for the given tool call.
    pub fn tool(content: String, tool_call_id: String) -> (r: Message)
        ensures
            r.role == MessageRole::Tool,
            r.content@ == content@,
            r.name is None,
            r.tool_calls is None,
            r.tool_call_id matches Some(id) && id@ == tool_call_id@,
    {
        Message {
            role: MessageRole::Tool,
            content,
            name: None,
            tool_calls: None,
            tool_call_id: Some(tool_call_id),
        }
    }

}

/// Token usage reported for one model call.
#[derive(Debug, Clone, PartialEq)]
pub struct TokenUsage {
    pub input_tokens: u32,
    pub output_tokens: u32,
    /// Always the sum of input and output tokens.
    pub total_tokens: u32,
    /// Estimated cost in millionths of a dollar, when the provider gives one.
    pub cost_micros: Option<u64>,
}

impl TokenUsage {
    /// Usage with the given input and output counts; the total is their sum.
    pub fn new(input_tokens: u32, output_tokens: u32) -> (r: TokenUsage)
        requires
            input_tokens + output_tokens <= u32::MAX,
        ensures
            r.input_tokens == input_tokens,
            r.output_tokens == output_tokens,
            r.total_tokens == input_tokens + output_tokens,
            r.cost_micros is None,
    {
        TokenUsage {
            input_tokens,
            output_tokens,
            total_tokens: input_tokens + output_tokens,
            cost_micros: None,
        }
    }

    /// The same usage with a cost attached.
    pub fn with_cost(self, cost_micros: u64) -> (r: TokenUsage)
        ensures
            r.input_tokens == self.input_tokens,
            r.output_tokens == self.output_tokens,
            r.total_tokens == self.total_tokens,
            r.cost_micros == Some(cost_micros),
    {
        TokenUsage { cost_micros: Some(cost_micros), ..self }
    }

    /// A field-equal copy with a stated contract.
    pub fn duplicate(&self) -> (r: TokenUsage)
        ensures
            r == *self,
    {
        TokenUsage {
            input_tokens: self.input_tokens,
            output_tokens: self.output_tokens,
            total_tokens: self.total_tokens,
            cost_micros: self.cost_micros,
        }
    }
}

/// Tool made visible to the model, with its schema as JSON text.
#[derive(Debug, Clone, PartialEq)]
pub struct ToolDefinition {
    pub name: String,
    pub description: String,
    pub input_schema: String,
}

/// One generation request: the transcript plus sampling parameters.
#[derive(Debug, Clone, PartialEq)]
pub struct LLMRequest {
    pub messages: Vec<Message>,
    pub model: String,
    /// Sampling temperature in thousandths (0 to 2000), if set.
    pub temperature_milli: Option<u32>,
    pub max_tokens: Option<u32>,
    /// Top-p in thousandths (0 to 1000), if set.
    pub top_p_milli: Option<u32>,
    pub stop_sequences: Option<Vec<String>>,
    pub stream: bool,
    pub tools: Option<Vec<ToolDefinition>>,
}

impl LLMRequest {
    /// A request for `model` over the given messages, everything else unset.
    pub fn new(model: String, messages: Vec<Message>) -> (r: LLMRequest)
        ensures
            r.model@ == model@,
            r.messages == messages,
            r.temperature_milli is None,
            r.max_tokens is None,
            r.top_p_milli is None,
            r.stop_sequences is None,
            r.stream == false,
            r.tools is None,
    {
        LLMRequest {
            messages,
            model,
            temperature_milli: None,
            max_tokens: None,
            top_p_milli: None,
            stop_sequences: None,
            stream: false,
            tools: None,
        }
    }

    /// The same request with the temperature set.
    pub fn with_temperature(self, temperature_milli: u32) -> (r: LLMRequest)
        ensures
            r == (LLMRequest { temperature_milli: Some(temperature_milli), ..self }),
    {
        LLMRequest { temperature_milli: Some(temperature_milli), ..self }
    }

    /// The same request with the token limit set.
    pub fn with_max_tokens(self, max_tokens: u32) -> (r: LLMRequest)
        ensures
            r == (LLMRequest { max_tokens: Some(max_tokens), ..self }),
    {
        LLMRequest { max_tokens: Some(max_tokens), ..self }
    }

    /// The same request with the tool definitions set.
    pub fn with_tools(self, tools: Vec<ToolDefinition>) -> (r: LLMRequest)
        ensures
            r.tools == Some(tools),
            r.messages == self.messages,
            r.model == self.model,
            r.stream == self.stream,
    {
        LLMRequest { tools: Some(tools), ..self }
    }

    /// The same request with streaming switched on or off.
    pub fn with_streaming(self, stream: bool) -> (r: LLMRequest)
        ensures
            r == (LLMRequest { stream, ..self }),
    {
        LLMRequest { stream, ..self }
    }
}

/// Why the model stopped generating.
#[derive(Debug, Clone, Copy, PartialEq, Eq, Structural)]
pub enum FinishReason {
    Stop,
    Length,
    ToolCalls,
    ContentFilter,
    Other,
}

/// One complete model response.
#[derive(Debug, Clone, PartialEq)]
pub struct LLMResponse {
    pub content: String,
    pub role: MessageRole,
    pub tool_calls: Option<Vec<ToolCall>>,
    pub usage: TokenUsage,
    pub finish_reason: FinishReason,
}

impl LLMResponse {
    /// This response as a transcript message.
    pub fn to_message(&self) -> (r: Message)
        ensures
            r.role == self.role,
            r.content@ == self.content@,
            r.name is None,
            r.tool_call_id is None,
    {
        Message {
            role: self.role,
            content: self.content.clone(),
            name: None,
            tool_calls: match &self.tool_calls {
                Some(tc) => Some(tc.clone()),
                None => None,
            },
            tool_call_id: None,
        }
    }
}

/// Incremental piece of a streamed response.
#[derive(Debug, Clone, PartialEq)]
pub struct StreamChunk {
    pub content: String,
    pub tool_call_delta: Option<ToolCallDelta>,
    pub is_final: bool,
    pub usage: Option<TokenUsage>,
    pub finish_reason: Option<FinishReason>,
}

/// Partial tool call carried by a stream chunk.
#[derive(Debug, Clone, PartialEq)]
pub struct ToolCallDelta {
    pub id: Option<String>,
    pub name: Option<String>,
    pub arguments: Option<String>,
}

/// Failure of a model call.
#[derive(Debug, Clone, PartialEq)]
pub enum LlmError {
    Http(String),
    Serialization(String),
    Api { status: u16, message: String },
    RateLimited { retry_after_secs: Option<u64> },
    InvalidRequest(String),
    Timeout(String),
    Stream(String),
    Authentication(String),
    Unknown(String),
}

impl LlmError {
    /// A human-readable description of the failure.
    pub fn message(&self) -> (r: String)
        ensures
            (self matches LlmError::Http(s) ==> r@ == "LLM HTTP error: "@ + s@),
            (self matches LlmError::Serialization(s) ==> r@ == "LLM serialization error: "@ + s@),
            (self matches LlmError::Api { status, message } ==> r@ == "LLM API error: "@
                + message@),
            (self matches LlmError::RateLimited { retry_after_secs } ==> r@
                == "LLM rate limited"@),
            (self matches LlmError::InvalidRequest(s) ==> r@ == "LLM invalid request: "@ + s@),
            (self matches LlmError::Timeout(s) ==> r@ == "LLM timeout: "@ + s@),
            (self matches LlmError::Stream(s) ==> r@ == "LLM stream error: "@ + s@),
            (self matches LlmError::Authentication(s) ==> r@ == "LLM authentication error: "@
                + s@),
            (self matches LlmError::Unknown(s) ==> r@ == "LLM error: "@ + s@),
    {
        match self {
            LlmError::Http(s) => {
                let mut r = String::from_str("LLM HTTP error: ");
                r.append(s.as_str());
                r
            },
            LlmError::Serialization(s) => {
                let mut r = String::from_str("LLM serialization error: ");
                r.append(s.as_str());
                r
            },
            LlmError::Api { status: _, message } => {
                let mut r = String::from_str("LLM API error: ");
                r.append(message.as_str());
                r
            },
            LlmError::RateLimited { retry_after_secs: _ } => String::from_str("LLM rate limited"),
            LlmError::InvalidRequest(s) => {
                let mut r = String::from_str("LLM invalid request: ");
                r.append(s.as_str());
                r
            },
            LlmError::Timeout(s) => {
                let mut r = String::from_str("LLM timeout: ");
                r.append(s.as_str());
                r
            },
            LlmError::Stream(s) => {
                let mut r = String::from_str("LLM stream error: ");
                r.append(s.as_str());
                r
            },
            LlmError::Authentication(s) => {
                let mut r = String::from_str("LLM authentication error: ");
                r.append(s.as_str());
                r
            },
            LlmError::Unknown(s) => {
                let mut r = String::from_str("LLM error: ");
                r.append(s.as_str());
                r
            },
        }
    }
}

/// Uniform generate contract over heterogeneous model providers.
///
/// Implementations live outside the verified library (they speak HTTP);
/// nothing is assumed of what they return, and the engine states what holds
/// of a run whatever comes back.
pub trait LlmClient {
    /// The provider's name.
    fn provider_name(&self) -> String;

    /// One complete generation.
    fn generate(&self, request: &LLMRequest) -> Result<LLMResponse, LlmError>;

    /// Estimated cost of a call, in millionths of a dollar, if the model is
    /// known.
    fn estimate_cost(&self, input_tokens: u32, output_tokens: u32, model: &str) -> Option<u64>;

    /// The model's context window, if known.
    fn max_context_tokens(&self, model: &str) -> Option<u32>;
}

/// A monotonic-enough clock read, for run timing.
///
/// The engine only ever compares two readings, so any implementation whose
/// readings do not decrease over a run gives the documented timeout
/// behaviour.
pub trait Clock {
    /// Milliseconds since the clock's epoch.
    fn now_millis(&self) -> u64;
}

/// Relies on std's `SystemTime::now`: milliseconds elapsed since the Unix
/// epoch, read from the system clock.
#[verifier::external_body]
pub(crate) fn current_time_millis() -> u64 {
    match std::time::SystemTime::now().duration_since(std::time::UNIX_EPOCH) {
        Ok(d) => d.as_millis() as u64,
        Err(_) => 0,
    }
}

/// The process's wall clock.
#[derive(Debug, Clone, Copy)]
pub struct SystemClock;

impl Clock for SystemClock {
    fn now_millis(&self) -> u64 {
        current_time_millis()
    }
}

} // verus!
