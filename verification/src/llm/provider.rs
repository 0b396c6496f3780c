//! Responses and errors of LLM invocations.

use vstd::prelude::*;

verus! {

/// Response from an LLM invocation.
#[derive(Clone, Debug)]
pub struct LlmResponse {
    /// Generated content.
    pub content: String,
    /// Model name used.
    pub model_used: String,
    /// Tokens used in generation.
    pub tokens_used: u64,
}

/// Error types for LLM operations.
#[derive(Debug)]
pub enum LlmError {
    ModelNotFound(String),
    ApiError(String),
    InvalidRequest(String),
    RateLimited,
    Timeout,
    Unknown(String),
}

impl LlmError {
    /// The error as it is displayed.
    pub fn message(&self) -> (r: String)
        ensures
            r@ == match *self {
                LlmError::ModelNotFound(m) => "Model not found: "@ + m@,
                LlmError::ApiError(m) => "API error: "@ + m@,
                LlmError::InvalidRequest(m) => "Invalid request: "@ + m@,
                LlmError::RateLimited => "Rate limited"@,
                LlmError::Timeout => "Timeout"@,
                LlmError::Unknown(m) => "Unknown error: "@ + m@,
            },
    {
        let (prefix, detail) = match self {
            LlmError::ModelNotFound(m) => ("Model not found: ", m.as_str()),
            LlmError::ApiError(m) => ("API error: ", m.as_str()),
            LlmError::InvalidRequest(m) => ("Invalid request: ", m.as_str()),
            LlmError::RateLimited => return "Rate limited".to_string(),
            LlmError::Timeout => return "Timeout".to_string(),
            LlmError::Unknown(m) => ("Unknown error: ", m.as_str()),
        };
        let mut r = prefix.to_string();
        r.append(detail);
        r
    }
}

} // verus!
