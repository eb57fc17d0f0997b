//! `term_cat`: the verified core of a terminal chat client for local
//! OpenAI-compatible LLM servers.

pub mod agent;
pub mod bridge;
pub mod error;
pub mod json;
pub mod newtype;
pub mod provider;
pub mod sse;
pub mod text;
pub mod tui;
pub mod wire;

pub use newtype::{
    ApiKey, BaseUrl, FinishReason, MaxTokens, MessageBody, ModelName, ToolCallId, ToolCallIndex,
    ToolName,
};
pub use error::{BridgeError, Error, ProviderError, SseError, TuiError, WireError};
