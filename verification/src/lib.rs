//! The TUIC protocol engine: wire codec, UDP fragmentation and reassembly,
//! and the per-connection rules of a TUIC relay.

pub mod client;
pub mod common;
pub mod protocol;
pub mod server;
