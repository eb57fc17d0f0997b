//! JSON shapes for the OpenAI-compatible Chat Completions API, held as plain
//! data.  Encoding and decoding happen at the edge of the program.

pub mod chunk;
pub mod message;
pub mod response;

pub use chunk::{ChatCompletionChunk, ChunkChoice, ChunkDelta, ChunkToolCall, ChunkToolCallFunction};
pub use message::{Message, Role, ToolCall, ToolCallFunction, ToolCallKind};
pub use response::{ChatCompletionResponse, ResponseChoice, ResponseMessage};
