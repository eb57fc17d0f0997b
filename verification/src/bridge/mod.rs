//! Inter-thread plumbing: cancel signalling, and what crosses from the
//! history to the producer.

pub mod cancel;
pub mod channel;

pub use cancel::{CancelObserver, Canceller, TryRecvOutcome, cancel_channel};
pub use channel::{chat_to_agent, closing_events, history_to_wire};
