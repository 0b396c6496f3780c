//! Model calls made through AMS.

use vstd::prelude::*;

verus! {

/// The finish reason of a tool completion that names none: `stop`.
pub fn default_stop() -> (r: String)
    ensures
        r@ == "stop"@,
{
    "stop".to_string()
}

/// What one generation produced: the text, the model and provider that
/// produced it, and the tokens it took.
pub struct GenerationResult {
    pub content: String,
    pub model: String,
    pub provider: String,
    pub input_tokens: u64,
    pub output_tokens: u64,
}

impl GenerationResult {
    /// A generation by the local Kilo CLI: only its output tokens are known.
    pub fn from_kilo(response: crate::llm::provider::LlmResponse) -> (r: Self)
        ensures
            r.content == response.content,
            r.model == response.model_used,
            r.provider@ == "kilo_local"@,
            r.input_tokens == 0,
            r.output_tokens == response.tokens_used,
    {
        GenerationResult {
            content: response.content,
            model: response.model_used,
            provider: "kilo_local".to_string(),
            input_tokens: 0,
            output_tokens: response.tokens_used,
        }
    }
}

} // verus!
