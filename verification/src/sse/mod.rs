//! Server-Sent Events: classifying the lines of a streaming response body,
//! and handing out the events a chunk lowered to one at a time.

pub mod parser;

pub use parser::{LineKind, SseStep, classify, sse_next};
