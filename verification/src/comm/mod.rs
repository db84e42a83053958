//! The message and token channels between the host and the embedded side.

pub mod channel;
pub mod types;

pub use channel::{ChannelHandler, ChannelInterface, PollError, PyMessageInterface, SendOutcome};
pub use types::ingested_tokens::IngestedTokens;
pub use types::message::{MessageState, MessageType};
