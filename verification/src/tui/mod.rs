//! Terminal UI state: input buffer, history, key mapping, application state.

pub mod app;
pub mod frame;
pub mod history;
pub mod input;
pub mod key;
pub mod render;

pub use app::{AppEffect, AppState, Mode};
pub use history::{ChatHistory, HistoryEntry};
pub use input::InputBuffer;
pub use key::{InputEvent, KeyAction, KeyCode, KeyPress, lift};
