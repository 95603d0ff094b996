//! The rules of the relay's server side.

pub mod connection;
pub mod error;
pub mod udp_session;
