//! The client's configuration as the command line gives it, on top of a
//! configuration file or without one.

pub mod config;
pub mod default;
pub mod error;
pub mod level;
pub mod options;
pub mod raw;
