//! The TUIC wire format: addresses, commands and the errors of decoding them.

pub mod address;
pub mod command;
pub mod error;
pub mod packet;
pub mod wire;

