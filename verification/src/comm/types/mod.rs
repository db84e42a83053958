//! What travels over the channels.

pub mod ingested_tokens;
pub mod message;

pub use ingested_tokens::IngestedTokens;
pub use message::{MessageState, MessageType};
