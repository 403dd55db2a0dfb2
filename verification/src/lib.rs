//! A typed client layer over a chat-platform messaging engine.
//!
//! The crate has two halves. `types` holds the protocol message types:
//! plain records with builders and accessors, one module per message
//! family. `client` holds the session core: the request/response
//! observer that matches replies to waiters by correlation identifier,
//! the authorization state machine that drives the login handshake, and
//! the event dispatch that splits the incoming stream into correlated
//! replies, authorization events and plain updates.

pub mod client;
pub mod errors;
pub mod types;
pub mod utils;
