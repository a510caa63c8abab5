//! A gateway library that merges two chat-completion providers into one
//! response: a reasoning provider (DeepSeek) supplies a thinking trace, an
//! answer provider (Gemini) supplies the final answer. The library holds the
//! verified core: request validation, reasoning extraction, message
//! extension, token/cost aggregation with exact fixed-point rendering, and
//! the two-phase streaming state machine. Network clients and the HTTP
//! server live outside the library.

pub mod compose;
pub mod cost;
pub mod deepseek;
pub mod error;
pub mod gemini;
pub mod request;
pub mod response;
pub mod stream;
