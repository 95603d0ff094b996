//! The rules of the relay's client side.

pub mod cli;
pub mod config;
pub mod link;
