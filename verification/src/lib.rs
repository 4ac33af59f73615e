//! Core of a button-driven dialogue bot: a per-conversation state machine
//! that walks a user from a start command through a symbol choice and an
//! interval choice to a confirmation, plus the in-memory store that keeps
//! one dialogue state per conversation.
//!
//! Transport (receiving updates, sending replies) is the embedding
//! application's concern: this crate turns one inbound event into the next
//! state and the reply to send, and nothing here performs I/O.

pub mod dispatch;
pub mod errors;
pub mod laws;
pub mod state;
pub mod store;
