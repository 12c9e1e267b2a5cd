//! Errors that can end a run.

use vstd::prelude::*;

use crate::llm::LlmError;
use crate::text::{dec_str_of, u64_to_dec, u32_to_dec};
use crate::tools::ToolError;

verus! {

/// Why agent execution failed, before it is folded into a stop reason.
#[derive(Debug, Clone, PartialEq)]
pub enum RuntimeError {
    /// The model call failed.
    Llm(LlmError),
    /// A tool execution failed.
    Tool(ToolError),
    /// The configuration was unusable.
    ConfigError(String),
    /// The cooperative timeout fired, with the timeout in seconds.
    Timeout(u64),
    /// The iteration bound was reached.
    MaxIterationsReached(u32),
    /// The model named a tool absent from the registry.
    ToolNotFound(String),
    /// The model's action could not be read as a tool call or an answer.
    InvalidToolCall(String),
    /// The run was stopped from outside.
    Stopped(String),
    /// Any other failure.
    Other(String),
}

impl RuntimeError {
    /// A human-readable description of the failure.
    pub fn message(&self) -> (r: String)
        ensures
            (self matches RuntimeError::ConfigError(s) ==> r@ == "Configuration error: "@ + s@),
            (self matches RuntimeError::Timeout(n) ==> r@ == "Execution timeout after "@
                + dec_str_of(n as int) + "s"@),
            (self matches RuntimeError::MaxIterationsReached(n) ==> r@
                == "Max iterations reached: "@ + dec_str_of(n as int)),
            (self matches RuntimeError::ToolNotFound(s) ==> r@ == "Tool not found: "@ + s@),
            (self matches RuntimeError::InvalidToolCall(s) ==> r@ == "Invalid tool call: "@ + s@),
            (self matches RuntimeError::Stopped(s) ==> r@ == "Execution stopped: "@ + s@),
            (self matches RuntimeError::Other(s) ==> r@ == "Runtime error: "@ + s@),
            (self matches RuntimeError::Llm(_) ==> r@.len() >= "LLM error: "@.len()),
            (self matches RuntimeError::Tool(_) ==> r@.len() >= "Tool error: "@.len()),
    {
        match self {
            RuntimeError::Llm(e) => {
                let mut r = String::from_str("LLM error: ");
                let inner = e.message();
                r.append(inner.as_str());
                r
            },
            RuntimeError::Tool(e) => {
                let mut r = String::from_str("Tool error: ");
                let inner = e.message();
                r.append(inner.as_str());
                r
            },
            RuntimeError::ConfigError(s) => {
                let mut r = String::from_str("Configuration error: ");
                r.append(s.as_str());
                r
            },
            RuntimeError::Timeout(n) => {
                let mut r = String::from_str("Execution timeout after ");
                let secs = u64_to_dec(*n);
                r.append(secs.as_str());
                r.append("s");
                r
            },
            RuntimeError::MaxIterationsReached(n) => {
                let mut r = String::from_str("Max iterations reached: ");
                let shown = u32_to_dec(*n);
                r.append(shown.as_str());
                r
            },
            RuntimeError::ToolNotFound(s) => {
                let mut r = String::from_str("Tool not found: ");
                r.append(s.as_str());
                r
            },
            RuntimeError::InvalidToolCall(s) => {
                let mut r = String::from_str("Invalid tool call: ");
                r.append(s.as_str());
                r
            },
            RuntimeError::Stopped(s) => {
                let mut r = String::from_str("Execution stopped: ");
                r.append(s.as_str());
                r
            },
            RuntimeError::Other(s) => {
                let mut r = String::from_str("Runtime error: ");
                r.append(s.as_str());
                r
            },
        }
    }
}

} // verus!
