//! Clipboard synchronization over a thin HTTP transport.
//!
//! A server owns the local system clipboard and exposes it as two HTTP
//! operations (store contents, fetch contents); a client reads and writes
//! that clipboard from elsewhere, either as one buffer or as a stream of
//! chunks.  This crate holds the protocol core: the request/response
//! decisions of the server, the client's endpoint handling, the error
//! taxonomy and its mapping to transport status codes, and the chunked
//! transfer discipline.  The platform clipboard itself and the network
//! plumbing are collaborators at the boundary; their outcomes are handed
//! in as plain values.

pub mod chunks;
pub mod cli;
pub mod client;
pub mod server;
pub mod strutil;
