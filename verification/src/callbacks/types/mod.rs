//! The event vocabulary.

pub mod event;

pub use event::{EventState, EventStateView, EventType};
