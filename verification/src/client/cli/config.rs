//! The settings, checked against each other and made ready for use.

use vstd::prelude::*;
use vstd::string::StrSliceExecFns;
use vstd::utf8::encode_utf8;
use crate::client::cli::error::{ConfigError, ConfigErrorView};
use crate::client::cli::level::LogLevel;
use crate::client::cli::raw::RawConfig;
use crate::common::heartbeat::keeps_alive;
use crate::common::token::{blake3, token_digest};
use crate::common::utils::{CongestionController, IpAddress};
use crate::common::udp::UdpRelayMode;

verus! {

/// Where the server is.
#[derive(Debug, PartialEq, Eq)]
pub enum ServerAddr {
    /// At a known address; the name is for the certificate.
    SocketAddr { server_addr: (IpAddress, u16), server_name: String },
    /// Wherever its name resolves to.
    HostnameAddr { hostname: String, server_port: u16 },
}

/// What the local SOCKS5 server asks of its clients.
#[derive(Debug, PartialEq, Eq)]
pub enum Socks5Authentication {
    /// Nothing.
    Anonymous,
    /// A user name and a password.
    Password { username: Vec<u8>, password: Vec<u8> },
}

/// The client's configuration.
#[derive(Debug, PartialEq, Eq)]
pub struct Config {
    /// The certificate to trust, where the platform's roots are not to be.
    pub certificate: Option<String>,
    /// The algorithm that paces what is sent.
    pub congestion_controller: CongestionController,
    /// After how many milliseconds an idle connection is given up.
    pub max_idle_time: u32,
    /// Where the server is.
    pub server_addr: ServerAddr,
    /// The digest that authenticates the client.
    pub token_digest: [u8; 32],
    /// Where the local SOCKS5 server listens.
    pub local_addr: (IpAddress, u16),
    /// What the local SOCKS5 server asks of its clients.
    pub socks5_authentication: Socks5Authentication,
    /// How UDP is relayed.
    pub udp_mode: UdpRelayMode,
    /// Every how many milliseconds a heartbeat is sent.
    pub heartbeat_interval: u64,
    /// Whether the handshake may skip a round trip.
    pub reduce_rtt: bool,
    /// Whether IPv6 is on.
    pub enable_ipv6: bool,
    /// The largest UDP packet that is relayed, in bytes.
    pub max_udp_packet_size: usize,
    /// How much is logged.
    pub log_level: LogLevel,
}

/// The address that the local server listens on: the loopback address,
/// or every address where connections from outside are allowed; of IPv6
/// where IPv6 is on, else of IPv4.
pub open spec fn local_ip(enable_ipv6: bool, allow_external_connection: bool) -> Seq<u8> {
    if enable_ipv6 {
        if allow_external_connection {
            Seq::new(16, |i: int| 0u8)
        } else {
            Seq::new(16, |i: int| if i == 15 { 1u8 } else { 0u8 })
        }
    } else {
        if allow_external_connection {
            seq![0u8, 0u8, 0u8, 0u8]
        } else {
            seq![127u8, 0u8, 0u8, 1u8]
        }
    }
}

/// The bytes of an IP address.
pub open spec fn ip_bytes(ip: IpAddress) -> Seq<u8> {
    match ip {
        IpAddress::V4(b) => b@,
        IpAddress::V6(b) => b@,
    }
}

/// The first complaint against the settings as a whole, if there is any:
/// the idle time must exceed the heartbeat interval; server, port, token
/// and local port must be set; user name and password go together.
pub open spec fn config_fault(raw: RawConfig) -> Option<ConfigErrorView> {
    if raw.relay.max_idle_time <= raw.relay.heartbeat_interval {
        Some(ConfigErrorView::HeartbeatInterval)
    } else if raw.relay.server is None {
        Some(ConfigErrorView::MissingOption("server address"@))
    } else if raw.relay.port is None {
        Some(ConfigErrorView::MissingOption("server port"@))
    } else if raw.relay.token is None {
        Some(ConfigErrorView::MissingOption("token"@))
    } else if raw.local.port is None {
        Some(ConfigErrorView::MissingOption("local port"@))
    } else if (raw.local.username is Some) != (raw.local.password is Some) {
        Some(ConfigErrorView::LocalAuthentication)
    } else {
        None
    }
}

/// Whether `config` is what the settings `raw` amount to.
pub open spec fn configures(config: Config, raw: RawConfig) -> bool {
    &&& config.certificate == raw.relay.certificate
    &&& config.congestion_controller == raw.relay.congestion_controller
    &&& config.max_idle_time == raw.relay.max_idle_time
    &&& match raw.relay.ip {
        Some(ip) => config.server_addr matches ServerAddr::SocketAddr { server_addr, server_name }
            && server_addr == (ip, raw.relay.port->Some_0) && server_name == raw.relay.server->Some_0,
        None => config.server_addr matches ServerAddr::HostnameAddr { hostname, server_port }
            && hostname == raw.relay.server->Some_0 && server_port == raw.relay.port->Some_0,
    }
    &&& config.token_digest@ == blake3(encode_utf8(raw.relay.token->Some_0@))
    &&& config.local_addr.0 is V6 == raw.enable_ipv6
    &&& ip_bytes(config.local_addr.0) == local_ip(
        raw.enable_ipv6,
        raw.local.allow_external_connection,
    )
    &&& config.local_addr.1 == raw.local.port->Some_0
    &&& match raw.local.username {
        Some(name) => config.socks5_authentication matches Socks5Authentication::Password {
            username,
            password,
        } && username@ == encode_utf8(name@) && password@ == encode_utf8(
            raw.local.password->Some_0@,
        ),
        None => config.socks5_authentication is Anonymous,
    }
    &&& config.udp_mode == raw.relay.udp_mode
    &&& config.heartbeat_interval == raw.relay.heartbeat_interval
    &&& config.reduce_rtt == raw.relay.reduce_rtt
    &&& config.enable_ipv6 == raw.enable_ipv6
    &&& config.max_udp_packet_size == raw.max_udp_packet_size
    &&& config.log_level == raw.log_level
}

impl Config {
    /// Checks the settings against each other and makes them ready for
    /// use.
    pub fn parse(raw: RawConfig) -> (r: Result<Config, ConfigError>)
        ensures
            match r {
                Ok(config) => config_fault(raw) is None && configures(config, raw),
                Err(e) => config_fault(raw) == Some(e@),
            },
    {
        let RawConfig { relay, local, enable_ipv6, max_udp_packet_size, log_level } = raw;
        if !keeps_alive(relay.heartbeat_interval, relay.max_idle_time as u64) {
            return Err(ConfigError::HeartbeatInterval);
        }
        let name = match relay.server {
            Some(name) => name,
            None => {
                return Err(ConfigError::MissingOption("server address"));
            },
        };
        let port = match relay.port {
            Some(port) => port,
            None => {
                return Err(ConfigError::MissingOption("server port"));
            },
        };
        let token = match relay.token {
            Some(token) => token,
            None => {
                return Err(ConfigError::MissingOption("token"));
            },
        };
        let local_port = match local.port {
            Some(port) => port,
            None => {
                return Err(ConfigError::MissingOption("local port"));
            },
        };
        let socks5_authentication = match (local.username, local.password) {
            (None, None) => Socks5Authentication::Anonymous,
            (Some(username), Some(password)) => Socks5Authentication::Password {
                username: username.as_str().as_bytes_vec(),
                password: password.as_str().as_bytes_vec(),
            },
            _ => {
                return Err(ConfigError::LocalAuthentication);
            },
        };
        let server_addr = match relay.ip {
            Some(ip) => ServerAddr::SocketAddr { server_addr: (ip, port), server_name: name },
            None => ServerAddr::HostnameAddr { hostname: name, server_port: port },
        };
        let token_digest = token_digest(token.as_str());
        let local_ip = if enable_ipv6 {
            let mut ip = [0u8;16];
            if !local.allow_external_connection {
                ip[15] = 1;
            }
            assert(ip@ =~= local_ip(enable_ipv6, local.allow_external_connection));
            IpAddress::V6(ip)
        } else {
            let ip = if local.allow_external_connection {
                [0u8, 0u8, 0u8, 0u8]
            } else {
                [127u8, 0u8, 0u8, 1u8]
            };
            IpAddress::V4(ip)
        };
        Ok(
            Config {
                certificate: relay.certificate,
                congestion_controller: relay.congestion_controller,
                max_idle_time: relay.max_idle_time,
                server_addr,
                token_digest,
                local_addr: (local_ip, local_port),
                socks5_authentication,
                udp_mode: relay.udp_mode,
                heartbeat_interval: relay.heartbeat_interval,
                reduce_rtt: relay.reduce_rtt,
                enable_ipv6,
                max_udp_packet_size,
                log_level,
            },
        )
    }
}

} // verus!
