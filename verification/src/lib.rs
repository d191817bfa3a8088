//! A verified conversation-session core for a chat-completion client.
//!
//! The library owns the ordered message transcript of a chat session, the
//! fixed model identifier, and the persistent system prompt.  It builds the
//! outbound completion request for each turn and absorbs the outcome of the
//! network round trip back into the transcript.  The network round trip
//! itself, and any user interface, live outside the library and exchange
//! plain values with it.

pub mod client;
pub mod laws;
pub mod message;
pub mod model;
pub mod session;
pub mod wire;
