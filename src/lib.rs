//! A long-polling sync client for a Matrix homeserver, written as a verified
//! state machine: each step takes what the transport observed and says what
//! to do next, so the caller's reactor drives all I/O.
pub mod batch;
pub mod endpoint;
pub mod request;
pub mod sync;
pub mod laws;
