//! What neither the command line nor the configuration file needs to set.

use vstd::prelude::*;
use crate::client::cli::level::LogLevel;
use crate::common::udp::UdpRelayMode;
use crate::common::utils::CongestionController;

verus! {

/// UDP is relayed over unidirectional streams.
pub fn udp_mode() -> (mode: UdpRelayMode)
    ensures
        mode == UdpRelayMode::Native,
{
    UdpRelayMode::Native
}

/// Congestion is controlled by CUBIC.
pub fn congestion_controller() -> (controller: CongestionController)
    ensures
        controller == CongestionController::Cubic,
{
    CongestionController::Cubic
}

/// An idle connection is given up after 15000 milliseconds.
pub fn max_idle_time() -> (millis: u32)
    ensures
        millis == 15000,
{
    15000
}

/// A heartbeat is sent every 10000 milliseconds.
pub fn heartbeat_interval() -> (millis: u64)
    ensures
        millis == 10000,
{
    10000
}

/// The handshake takes a full round trip.
pub fn reduce_rtt() -> (enabled: bool)
    ensures
        !enabled,
{
    false
}

/// The local server listens on the loopback address only.
pub fn allow_external_connection() -> (allowed: bool)
    ensures
        !allowed,
{
    false
}

/// IPv6 is off.
pub fn enable_ipv6() -> (enabled: bool)
    ensures
        !enabled,
{
    false
}

/// A UDP packet holds at most 1536 bytes.
pub fn max_udp_packet_size() -> (bytes: usize)
    ensures
        bytes == 1536,
{
    1536
}

/// Messages of level `info` and above are logged.
pub fn log_level() -> (level: LogLevel)
    ensures
        level == LogLevel::Info,
{
    LogLevel::Info
}

} // verus!
