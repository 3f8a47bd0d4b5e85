//! Protocol core of a small MUD-style game server.
//!
//! Clients exchange length-prefixed binary messages over TCP. This crate
//! holds the verified core: the message catalog, an incremental decoder
//! that never reads past the bytes it has, an encoder that produces the
//! exact wire form, the per-client state machine, and the event and write
//! queues that connect the server loop to an embedded game script.
//!
//! Socket handling, command-line parsing and the script interpreter are
//! deliberately outside this crate; they hand plain values in and take
//! plain values out.

pub mod cli;
pub mod client;
pub mod host;
pub mod laws;
pub mod protocol;
pub mod read;
pub mod read_buffer;
pub mod wire;
pub mod write;
