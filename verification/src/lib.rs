//! Verified core of the Syndicode game: the client's widget state, selection
//! and response bookkeeping, and the server's decision logic.
pub mod client;
pub mod server;
