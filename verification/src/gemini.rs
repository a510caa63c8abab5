//! The answer provider's (Gemini) wire shapes, as plain data: the complete
//! response, the incremental stream shapes, and the native event vocabulary
//! that the stream orchestrator translates into canonical events.

use vstd::prelude::*;
use crate::response::BlockModel;

verus! {

/// Token counts reported by the provider.
#[derive(Clone, Copy, Debug, PartialEq)]
pub struct Usage {
    pub prompt_tokens: u32,
    pub completion_tokens: u32,
    pub total_tokens: u32,
    pub prompt_tokens_details: Option<PromptTokensDetails>,
    pub completion_tokens_details: Option<CompletionTokensDetails>,
}

/// Prompt-side token detail.
#[derive(Clone, Copy, Debug, PartialEq)]
pub struct PromptTokensDetails {
    pub total_tokens: u32,
}

/// Completion-side token detail.
#[derive(Clone, Copy, Debug, PartialEq)]
pub struct CompletionTokensDetails {
    pub total_tokens: u32,
}

/// The assistant message of a complete response.
#[derive(Debug, PartialEq)]
pub struct AssistantMessage {
    pub role: String,
    pub content: String,
}

/// One alternative of a complete response.
#[derive(Debug, PartialEq)]
pub struct Choice {
    pub message: AssistantMessage,
    pub finish_reason: Option<String>,
}

/// A complete (non-streaming) response.
#[derive(Debug, PartialEq)]
pub struct GeminiResponse {
    pub choices: Vec<Choice>,
    pub usage: Option<Usage>,
}

/// The incremental delta of one stream chunk.
#[derive(Debug, PartialEq)]
pub struct StreamDelta {
    pub role: Option<String>,
    pub content: Option<String>,
}

/// One alternative within a stream chunk.
#[derive(Debug, PartialEq)]
pub struct StreamChoice {
    pub delta: StreamDelta,
    pub finish_reason: Option<String>,
}

/// One chunk of the incremental stream.
#[derive(Debug, PartialEq)]
pub struct StreamResponse {
    pub id: String,
    pub choices: Vec<StreamChoice>,
    pub created: u64,
    pub model: String,
    pub usage: Option<Usage>,
}

/// One unit of content as the provider frames it.
#[derive(Debug, PartialEq)]
pub struct ContentBlock {
    pub content_type: String,
    pub text: String,
}

impl View for ContentBlock {
    type V = BlockModel;

    open spec fn view(&self) -> BlockModel {
        BlockModel { content_type: self.content_type@, text: self.text@ }
    }
}

impl DeepView for ContentBlock {
    type V = BlockModel;

    open spec fn deep_view(&self) -> BlockModel {
        self.view()
    }
}

/// The initial message of a stream, with whatever content it already holds.
#[derive(Debug, PartialEq)]
pub struct StreamMessage {
    pub content: Vec<ContentBlock>,
}

/// An incremental content delta, carrying its block type and text.
#[derive(Debug, PartialEq)]
pub struct Delta {
    pub delta_type: String,
    pub text: String,
}

/// The provider's native incremental event vocabulary. Any kind beyond the
/// three the orchestrator reads is `Other` and is silently ignored.
#[derive(Debug, PartialEq)]
pub enum StreamEvent {
    MessageStart { message: StreamMessage },
    ContentBlockDelta { delta: Delta },
    MessageDelta { usage: Option<Usage> },
    Other,
}

} // verus!
