//! Clawd's session state machine, and the adapter boundary that feeds it.

pub mod config;
pub mod state;
pub mod time;

pub use config::Timings;
pub use state::ClawdState;
pub use time::{Duration, Instant};
pub mod text;
pub mod event;
pub use event::{EventKind, FailureKind, SessionEvent};
pub mod label;
pub mod machine;
pub use machine::{Machine, Snapshot};
pub mod json;
pub mod hook;
pub mod source;
pub use source::{EventSink, EventSource};
pub mod mock;
pub mod position;
pub mod listener;
