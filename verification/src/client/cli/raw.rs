//! The settings as they are read, before they are checked against each
//! other.

use std::str::FromStr;
use vstd::prelude::*;
use crate::client::cli::error::{ConfigError, ConfigErrorView};
use crate::client::cli::level::{level_from_str, level_named, LogLevel};
use crate::client::cli::options::Cli;
use crate::common::utils::IpAddress;
use crate::common::text::{decimal_up_to, parse_decimal, text};
use crate::common::udp::UdpRelayMode;
use crate::common::utils::{
    congestion_controller_named,
    udp_relay_mode_named,
    CongestionController,
};

verus! {

/// How the server is reached, as far as it is set.
#[derive(Debug, PartialEq, Eq)]
pub struct RawRelayConfig {
    pub server: Option<String>,
    pub port: Option<u16>,
    pub ip: Option<IpAddress>,
    pub token: Option<String>,
    pub certificate: Option<String>,
    pub udp_mode: UdpRelayMode,
    pub congestion_controller: CongestionController,
    pub max_idle_time: u32,
    pub heartbeat_interval: u64,
    pub reduce_rtt: bool,
}

/// How the local SOCKS5 server listens, as far as it is set.
#[derive(Debug, PartialEq, Eq)]
pub struct RawLocalConfig {
    pub port: Option<u16>,
    pub username: Option<String>,
    pub password: Option<String>,
    pub allow_external_connection: bool,
}

/// The settings of the client, as far as they are set.
#[derive(Debug, PartialEq, Eq)]
pub struct RawConfig {
    pub relay: RawRelayConfig,
    pub local: RawLocalConfig,
    pub enable_ipv6: bool,
    pub max_udp_packet_size: usize,
    pub log_level: LogLevel,
}

impl Default for RawRelayConfig {
    fn default() -> (c: Self)
        ensures
            c.server is None,
            c.port is None,
            c.ip is None,
            c.token is None,
            c.certificate is None,
            c.udp_mode == UdpRelayMode::Native,
            c.congestion_controller == CongestionController::Cubic,
            c.max_idle_time == 15000,
            c.heartbeat_interval == 10000,
            !c.reduce_rtt,
    {
        Self {
            server: None,
            port: None,
            ip: None,
            token: None,
            certificate: None,
            udp_mode: crate::client::cli::default::udp_mode(),
            congestion_controller: crate::client::cli::default::congestion_controller(),
            max_idle_time: crate::client::cli::default::max_idle_time(),
            heartbeat_interval: crate::client::cli::default::heartbeat_interval(),
            reduce_rtt: crate::client::cli::default::reduce_rtt(),
        }
    }
}

impl Default for RawLocalConfig {
    fn default() -> (c: Self)
        ensures
            c.port is None,
            c.username is None,
            c.password is None,
            !c.allow_external_connection,
    {
        Self {
            port: None,
            username: None,
            password: None,
            allow_external_connection: crate::client::cli::default::allow_external_connection(),
        }
    }
}

impl Default for RawConfig {
    fn default() -> (c: Self)
        ensures
            c.relay.server is None,
            c.relay.port is None,
            c.relay.ip is None,
            c.relay.token is None,
            c.relay.certificate is None,
            c.relay.udp_mode == UdpRelayMode::Native,
            c.relay.congestion_controller == CongestionController::Cubic,
            c.relay.max_idle_time == 15000,
            c.relay.heartbeat_interval == 10000,
            !c.relay.reduce_rtt,
            c.local.port is None,
            c.local.username is None,
            c.local.password is None,
            !c.local.allow_external_connection,
            !c.enable_ipv6,
            c.max_udp_packet_size == 1536,
            c.log_level == LogLevel::Info,
    {
        Self {
            relay: RawRelayConfig::default(),
            local: RawLocalConfig::default(),
            enable_ipv6: crate::client::cli::default::enable_ipv6(),
            max_udp_packet_size: crate::client::cli::default::max_udp_packet_size(),
            log_level: crate::client::cli::default::log_level(),
        }
    }
}

/// A text that must be set: what the command line gives, or else what the
/// file gives, or else the complaint that `what` is missing.
pub open spec fn needed_text(given: Option<String>, fallback: Option<String>, what: Seq<char>) -> Result<
    Seq<char>,
    ConfigErrorView,
> {
    match given {
        Some(s) => Ok(s@),
        None => match fallback {
            Some(s) => Ok(s@),
            None => Err(ConfigErrorView::MissingOption(what)),
        },
    }
}

/// A port that must be set: the number that the command line writes, or
/// else what the file gives, or else the complaint that `what` is
/// missing. A text on the command line that writes no port is an error,
/// whatever the file gives.
pub open spec fn needed_port(given: Option<String>, fallback: Option<u16>, what: Seq<char>) -> Result<
    u16,
    ConfigErrorView,
> {
    match given {
        Some(s) => match decimal_up_to(s@, 65535) {
            Some(v) => Ok(v as u16),
            None => Err(ConfigErrorView::ParseInt),
        },
        None => match fallback {
            Some(p) => Ok(p),
            None => Err(ConfigErrorView::MissingOption(what)),
        },
    }
}

/// A number that has a default: the number that the command line writes,
/// where it writes one, or else what the file or the default gives.
pub open spec fn number(given: Option<String>, fallback: nat, max: nat) -> Result<
    nat,
    ConfigErrorView,
> {
    match given {
        Some(s) => match decimal_up_to(s@, max) {
            Some(v) => Ok(v),
            None => Err(ConfigErrorView::ParseInt),
        },
        None => Ok(fallback),
    }
}

/// A text that may be left unset: what the command line gives, or else
/// what the file gives.
pub open spec fn either(given: Option<String>, fallback: Option<String>) -> Option<Seq<char>> {
    match given {
        Some(s) => Some(s@),
        None => text(fallback),
    }
}

/// The first complaint against the settings, if there is any. They are
/// looked at in this order: server address, server port, token, local
/// port, server IP, UDP relay mode, congestion controller, idle time,
/// heartbeat interval, packet size, log level.
pub open spec fn merge_fault(cli: Cli, base: RawConfig, server_ip: Option<Option<IpAddress>>) -> Option<
    ConfigErrorView,
> {
    if needed_text(cli.server, base.relay.server, "server address"@) is Err {
        Some(needed_text(cli.server, base.relay.server, "server address"@)->Err_0)
    } else if needed_port(cli.server_port, base.relay.port, "server port"@) is Err {
        Some(needed_port(cli.server_port, base.relay.port, "server port"@)->Err_0)
    } else if needed_text(cli.token, base.relay.token, "token"@) is Err {
        Some(needed_text(cli.token, base.relay.token, "token"@)->Err_0)
    } else if needed_port(cli.local_port, base.local.port, "local port"@) is Err {
        Some(needed_port(cli.local_port, base.local.port, "local port"@)->Err_0)
    } else if server_ip == Some(None::<IpAddress>) {
        Some(ConfigErrorView::ParseAddr)
    } else if cli.udp_mode matches Some(s) && udp_relay_mode_named(s@) is None {
        Some(ConfigErrorView::InvalidUdpRelayMode)
    } else if cli.congestion_controller matches Some(s) && congestion_controller_named(s@)
        is None {
        Some(ConfigErrorView::InvalidCongestionController)
    } else if number(cli.max_idle_time, base.relay.max_idle_time as nat, u32::MAX as nat) is Err {
        Some(ConfigErrorView::ParseInt)
    } else if number(cli.heartbeat_interval, base.relay.heartbeat_interval as nat, u64::MAX as nat)
        is Err {
        Some(ConfigErrorView::ParseInt)
    } else if number(cli.max_udp_packet_size, base.max_udp_packet_size as nat, usize::MAX as nat)
        is Err {
        Some(ConfigErrorView::ParseInt)
    } else if cli.log_level matches Some(s) && level_named(s@) is None {
        Some(ConfigErrorView::ParseLogLevel)
    } else {
        None
    }
}

/// Whether `raw` holds what the command line `cli` makes of the settings
/// `base`: each option that is given overrides the setting, each switch
/// that is given turns its setting on, and everything else stays.
pub open spec fn merges(raw: RawConfig, cli: Cli, base: RawConfig, server_ip: Option<Option<IpAddress>>) -> bool {
    &&& text(raw.relay.server) == Some(
        needed_text(cli.server, base.relay.server, "server address"@)->Ok_0,
    )
    &&& raw.relay.port == Some(needed_port(cli.server_port, base.relay.port, "server port"@)->Ok_0)
    &&& text(raw.relay.token) == Some(needed_text(cli.token, base.relay.token, "token"@)->Ok_0)
    &&& raw.local.port == Some(needed_port(cli.local_port, base.local.port, "local port"@)->Ok_0)
    &&& raw.relay.ip == match server_ip {
        Some(Some(ip)) => Some(ip),
        _ => base.relay.ip,
    }
    &&& text(raw.relay.certificate) == either(cli.certificate, base.relay.certificate)
    &&& raw.relay.udp_mode == match cli.udp_mode {
        Some(s) => udp_relay_mode_named(s@)->Some_0,
        None => base.relay.udp_mode,
    }
    &&& raw.relay.congestion_controller == match cli.congestion_controller {
        Some(s) => congestion_controller_named(s@)->Some_0,
        None => base.relay.congestion_controller,
    }
    &&& raw.relay.max_idle_time == number(
        cli.max_idle_time,
        base.relay.max_idle_time as nat,
        u32::MAX as nat,
    )->Ok_0
    &&& raw.relay.heartbeat_interval == number(
        cli.heartbeat_interval,
        base.relay.heartbeat_interval as nat,
        u64::MAX as nat,
    )->Ok_0
    &&& raw.relay.reduce_rtt == (base.relay.reduce_rtt || cli.reduce_rtt)
    &&& text(raw.local.username) == either(cli.local_username, base.local.username)
    &&& text(raw.local.password) == either(cli.local_password, base.local.password)
    &&& raw.local.allow_external_connection == (base.local.allow_external_connection
        || cli.allow_external_connection)
    &&& raw.enable_ipv6 == (base.enable_ipv6 || cli.enable_ipv6)
    &&& raw.max_udp_packet_size == number(
        cli.max_udp_packet_size,
        base.max_udp_packet_size as nat,
        usize::MAX as nat,
    )->Ok_0
    &&& raw.log_level == match cli.log_level {
        Some(s) => level_named(s@)->Some_0,
        None => base.log_level,
    }
}

fn take_text(given: Option<String>, fallback: Option<String>, what: &'static str) -> (r: Result<
    String,
    ConfigError,
>)
    ensures
        match r {
            Ok(s) => needed_text(given, fallback, what@) == Ok::<_, ConfigErrorView>(s@),
            Err(e) => needed_text(given, fallback, what@) == Err::<Seq<char>, _>(e@),
        },
{
    match given {
        Some(s) => Ok(s),
        None => match fallback {
            Some(s) => Ok(s),
            None => Err(ConfigError::MissingOption(what)),
        },
    }
}

fn take_port(given: &Option<String>, fallback: Option<u16>, what: &'static str) -> (r: Result<
    u16,
    ConfigError,
>)
    ensures
        match r {
            Ok(p) => needed_port(*given, fallback, what@) == Ok::<_, ConfigErrorView>(p),
            Err(e) => needed_port(*given, fallback, what@) == Err::<u16, _>(e@),
        },
{
    match given {
        Some(s) => match parse_decimal(s.as_str(), 65535) {
            Some(v) => Ok(v as u16),
            None => Err(ConfigError::ParseInt),
        },
        None => match fallback {
            Some(p) => Ok(p),
            None => Err(ConfigError::MissingOption(what)),
        },
    }
}

fn take_number(given: &Option<String>, fallback: u64, max: u64) -> (r: Result<u64, ConfigError>)
    requires
        fallback <= max,
    ensures
        match r {
            Ok(v) => number(*given, fallback as nat, max as nat) == Ok::<_, ConfigErrorView>(
                v as nat,
            ) && v <= max,
            Err(e) => number(*given, fallback as nat, max as nat) is Err && e@
                == ConfigErrorView::ParseInt,
        },
{
    match given {
        Some(s) => match parse_decimal(s.as_str(), max) {
            Some(v) => Ok(v),
            None => Err(ConfigError::ParseInt),
        },
        None => Ok(fallback),
    }
}

fn or_else(given: Option<String>, fallback: Option<String>) -> (r: Option<String>)
    ensures
        text(r) == either(given, fallback),
{
    match given {
        Some(s) => Some(s),
        None => fallback,
    }
}

impl RawConfig {
    /// Lays the command line `cli` over the settings of the configuration
    /// file, or over the defaults where there is no file.
    ///
    /// `server_ip` is what the caller made of the option `server-ip`:
    /// nothing where it is not given, the address where it writes one, and
    /// no address where it writes none.
    pub fn parse(cli: Cli, file: Option<RawConfig>, server_ip: Option<Option<IpAddress>>) -> (r:
        Result<RawConfig, ConfigError>)
        ensures
            match file {
                Some(base) => match r {
                    Ok(raw) => merge_fault(cli, base, server_ip) is None && merges(
                        raw,
                        cli,
                        base,
                        server_ip,
                    ),
                    Err(e) => merge_fault(cli, base, server_ip) == Some(e@),
                },
                None => exists|base: RawConfig|
                    {
                        &&& is_default(base)
                        &&& match r {
                            Ok(raw) => merge_fault(cli, base, server_ip) is None && merges(
                                raw,
                                cli,
                                base,
                                server_ip,
                            ),
                            Err(e) => merge_fault(cli, base, server_ip) == Some(e@),
                        }
                    },
            },
    {
        let base = match file {
            Some(base) => base,
            None => RawConfig::default(),
        };
        let r = Self::overlay(cli, base, server_ip);
        proof {
            if file is None {
                assert(is_default(base));
            }
        }
        r
    }

    fn overlay(cli: Cli, base: RawConfig, server_ip: Option<Option<IpAddress>>) -> (r: Result<
        RawConfig,
        ConfigError,
    >)
        ensures
            match r {
                Ok(raw) => merge_fault(cli, base, server_ip) is None && merges(
                    raw,
                    cli,
                    base,
                    server_ip,
                ),
                Err(e) => merge_fault(cli, base, server_ip) == Some(e@),
            },
    {
        let Cli {
            config: _,
            server,
            server_port,
            server_ip: _,
            token,
            certificate,
            udp_mode,
            congestion_controller,
            max_idle_time,
            heartbeat_interval,
            reduce_rtt,
            local_port,
            local_username,
            local_password,
            allow_external_connection,
            enable_ipv6,
            max_udp_packet_size,
            log_level,
        } = cli;
        let RawConfig { relay, local, enable_ipv6: base_ipv6, max_udp_packet_size: base_size, log_level: base_level } = base;
        let server = match take_text(server, relay.server, "server address") {
            Ok(server) => server,
            Err(e) => {
                return Err(e);
            },
        };
        let port = match take_port(&server_port, relay.port, "server port") {
            Ok(port) => port,
            Err(e) => {
                return Err(e);
            },
        };
        let token = match take_text(token, relay.token, "token") {
            Ok(token) => token,
            Err(e) => {
                return Err(e);
            },
        };
        let local_port = match take_port(&local_port, local.port, "local port") {
            Ok(port) => port,
            Err(e) => {
                return Err(e);
            },
        };
        let ip = match server_ip {
            Some(Some(ip)) => Some(ip),
            Some(None) => {
                return Err(ConfigError::ParseAddr);
            },
            None => relay.ip,
        };
        let mode = match &udp_mode {
            Some(s) => match UdpRelayMode::from_str(s.as_str()) {
                Ok(mode) => mode,
                Err(_) => {
                    return Err(ConfigError::InvalidUdpRelayMode);
                },
            },
            None => relay.udp_mode,
        };
        let controller = match &congestion_controller {
            Some(s) => match CongestionController::from_str(s.as_str()) {
                Ok(controller) => controller,
                Err(_) => {
                    return Err(ConfigError::InvalidCongestionController);
                },
            },
            None => relay.congestion_controller,
        };
        let idle = match take_number(&max_idle_time, relay.max_idle_time as u64, u32::MAX as u64) {
            Ok(v) => v as u32,
            Err(e) => {
                return Err(e);
            },
        };
        let heartbeat = match take_number(&heartbeat_interval, relay.heartbeat_interval, u64::MAX) {
            Ok(v) => v,
            Err(e) => {
                return Err(e);
            },
        };
        let size = match take_number(&max_udp_packet_size, base_size as u64, usize::MAX as u64) {
            Ok(v) => v as usize,
            Err(e) => {
                return Err(e);
            },
        };
        let level = match &log_level {
            Some(s) => match level_from_str(s.as_str()) {
                Some(level) => level,
                None => {
                    return Err(ConfigError::ParseLogLevel);
                },
            },
            None => base_level,
        };
        Ok(
            RawConfig {
                relay: RawRelayConfig {
                    server: Some(server),
                    port: Some(port),
                    ip,
                    token: Some(token),
                    certificate: or_else(certificate, relay.certificate),
                    udp_mode: mode,
                    congestion_controller: controller,
                    max_idle_time: idle,
                    heartbeat_interval: heartbeat,
                    reduce_rtt: relay.reduce_rtt || reduce_rtt,
                },
                local: RawLocalConfig {
                    port: Some(local_port),
                    username: or_else(local_username, local.username),
                    password: or_else(local_password, local.password),
                    allow_external_connection: local.allow_external_connection
                        || allow_external_connection,
                },
                enable_ipv6: base_ipv6 || enable_ipv6,
                max_udp_packet_size: size,
                log_level: level,
            },
        )
    }
}

/// Whether `c` holds the defaults and nothing else.
pub open spec fn is_default(c: RawConfig) -> bool {
    &&& c.relay.server is None
    &&& c.relay.port is None
    &&& c.relay.ip is None
    &&& c.relay.token is None
    &&& c.relay.certificate is None
    &&& c.relay.udp_mode == UdpRelayMode::Native
    &&& c.relay.congestion_controller == CongestionController::Cubic
    &&& c.relay.max_idle_time == 15000
    &&& c.relay.heartbeat_interval == 10000
    &&& !c.relay.reduce_rtt
    &&& c.local.port is None
    &&& c.local.username is None
    &&& c.local.password is None
    &&& !c.local.allow_external_connection
    &&& !c.enable_ipv6
    &&& c.max_udp_packet_size == 1536
    &&& c.log_level == LogLevel::Info
}

} // verus!
