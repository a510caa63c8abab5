//! Error taxonomy for the gateway.
//!
//! Validation failures are detected before any provider call; a missing
//! reasoning trace aborts after the first provider but before the second is
//! ever invoked; upstream failures abort immediately and carry the
//! originating provider.

use vstd::prelude::*;

verus! {

/// The provider a failure originated from.
#[derive(Debug, PartialEq)]
pub enum Provider {
    DeepSeek,
    Gemini,
}

/// Every failure the gateway can report.
#[derive(Debug, PartialEq)]
pub enum ApiError {
    /// A required credential header is absent; carries the header name.
    HeaderMissing { header: String },
    /// A request element is present but malformed.
    BadRequest { message: String },
    /// A system-role message stands anywhere but at the head of the list.
    InvalidSystemPrompt,
    /// The reasoning provider returned no reasoning trace; the answer
    /// provider is never invoked in this case.
    MissingReasoningContent,
    /// A transport or protocol failure from one of the providers.
    UpstreamError { provider: Provider, message: String, code: u16 },
}

} // verus!
