//! What a configuration file may leave out.

use vstd::prelude::*;
use crate::common::udp::UdpRelayMode;
use crate::common::utils::CongestionController;

verus! {

/// No certificate besides the platform's roots.
pub fn certificates() -> (paths: Vec<String>)
    ensures
        paths@.len() == 0,
{
    Vec::new()
}

/// UDP is relayed over unidirectional streams.
pub fn udp_relay_mode() -> (mode: UdpRelayMode)
    ensures
        mode == UdpRelayMode::Native,
{
    UdpRelayMode::Native
}

/// Congestion is controlled by CUBIC.
pub fn congestion_control() -> (controller: CongestionController)
    ensures
        controller == CongestionController::Cubic,
{
    CongestionController::Cubic
}

/// No ALPN identifier is offered.
pub fn alpn() -> (protocols: Vec<String>)
    ensures
        protocols@.len() == 0,
{
    Vec::new()
}

/// The handshake takes a full round trip.
pub fn zero_rtt_handshake() -> (enabled: bool)
    ensures
        !enabled,
{
    false
}

/// An idle connection is given up after 15 seconds; in milliseconds.
pub fn timeout() -> (millis: u64)
    ensures
        millis == 15_000,
{
    15_000
}

/// A heartbeat is sent every 3 seconds; in milliseconds.
pub fn heartbeat() -> (millis: u64)
    ensures
        millis == 3_000,
{
    3_000
}

/// A UDP packet holds at most 1500 bytes.
pub fn max_packet_size() -> (bytes: usize)
    ensures
        bytes == 1500,
{
    1500
}

} // verus!
