//! Pieces shared by both ends of a relay connection.

pub mod buf;
pub mod heartbeat;
pub mod incoming;
pub mod packet;
pub mod reassembly;
pub mod stream;
pub mod text;
pub mod token;
pub mod udp;
pub mod utils;
