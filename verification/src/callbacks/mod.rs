//! Events that code in the embedded runtime reports to the host.

pub mod interface;
pub mod types;

pub use interface::{EventCallbackInterface, EventHandler, EventOutcome, PyEventCallbackInterface};
pub use types::event::{EventState, EventStateView, EventType};
