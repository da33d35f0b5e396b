//! Conversation state for a log-analysis chat session with a local
//! language-model service.
//!
//! The library owns the ordered message history, decides what the session
//! does on each event of model setup, builds each chat request from the full
//! history, and folds a streamed reply into one assistant message. All
//! network and terminal work is left to the caller.

pub mod decimal;
pub mod message;
pub mod ollama;
pub mod progress;
pub mod prompt;
pub mod stream;
