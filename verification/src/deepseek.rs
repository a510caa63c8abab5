//! The reasoning provider's (DeepSeek) wire shapes, as plain data: the
//! complete response, the incremental stream chunk, and the usage report
//! with its cache and reasoning sub-fields.

use vstd::prelude::*;

verus! {

/// Token counts reported with a complete response or a stream chunk.
#[derive(Clone, Copy, Debug, PartialEq)]
pub struct Usage {
    pub prompt_tokens: u32,
    pub completion_tokens: u32,
    pub total_tokens: u32,
    pub prompt_tokens_details: PromptTokensDetails,
    pub completion_tokens_details: CompletionTokensDetails,
}

/// How much of the prompt was served from the provider's cache.
#[derive(Clone, Copy, Debug, PartialEq)]
pub struct PromptTokensDetails {
    pub cached_tokens: u32,
}

/// How much of the completion went into the reasoning trace.
#[derive(Clone, Copy, Debug, PartialEq)]
pub struct CompletionTokensDetails {
    pub reasoning_tokens: u32,
}

/// The assistant message of a complete response; the reasoning trace is a
/// separate, optional field beside the answer text.
#[derive(Debug, PartialEq)]
pub struct AssistantMessage {
    pub role: String,
    pub content: String,
    pub reasoning_content: Option<String>,
}

/// One alternative of a complete response.
#[derive(Debug, PartialEq)]
pub struct Choice {
    pub message: AssistantMessage,
    pub finish_reason: Option<String>,
}

/// A complete (non-streaming) response.
#[derive(Debug, PartialEq)]
pub struct DeepSeekResponse {
    pub choices: Vec<Choice>,
    pub usage: Usage,
}

/// The incremental delta of one stream chunk; an absent reasoning field
/// signals that the provider has moved past the reasoning phase.
#[derive(Debug, PartialEq)]
pub struct StreamDelta {
    pub reasoning_content: Option<String>,
}

/// One alternative within a stream chunk.
#[derive(Debug, PartialEq)]
pub struct StreamChoice {
    pub delta: StreamDelta,
}

/// One chunk of the incremental stream; a chunk may carry a usage report,
/// and a later report overwrites an earlier one.
#[derive(Debug, PartialEq)]
pub struct StreamChunk {
    pub choices: Vec<StreamChoice>,
    pub usage: Option<Usage>,
}

} // verus!
