//! The client's configuration as a file gives it.

pub mod args;
pub mod default;

use vstd::prelude::*;
use crate::common::heartbeat::keeps_alive;
use crate::common::text::{decimal_up_to, parse_decimal};
use crate::common::udp::UdpRelayMode;
use crate::common::utils::{CongestionController, IpAddress};

verus! {

/// How the server is reached.
#[derive(Debug, PartialEq, Eq)]
pub struct Relay {
    /// The server's name and port.
    pub server: (String, u16),
    /// The token that the server asks for.
    pub token: String,
    /// The server's address, where the name is not to be looked up.
    pub ip: Option<IpAddress>,
    /// Certificates to trust besides the platform's roots.
    pub certificates: Vec<String>,
    /// How UDP is relayed.
    pub udp_relay_mode: UdpRelayMode,
    /// The algorithm that paces what is sent.
    pub congestion_control: CongestionController,
    /// The ALPN identifiers to offer.
    pub alpn: Vec<String>,
    /// Whether the handshake may skip a round trip.
    pub zero_rtt_handshake: bool,
    /// After how many milliseconds an idle connection is given up.
    pub timeout: u64,
    /// Every how many milliseconds a heartbeat is sent.
    pub heartbeat: u64,
}

/// Where the local SOCKS5 server listens, and for whom.
#[derive(Debug, PartialEq, Eq)]
pub struct Local {
    /// The address and port to listen on.
    pub server: (IpAddress, u16),
    /// The user name that clients must present.
    pub username: Option<String>,
    /// The password that clients must present.
    pub password: Option<String>,
    /// Whether an IPv6 socket also takes IPv4 connections.
    pub dual_stack: Option<bool>,
    /// The largest UDP packet that is relayed, in bytes.
    pub max_packet_size: usize,
}

/// The client's configuration.
#[derive(Debug, PartialEq, Eq)]
pub struct Config {
    pub relay: Relay,
    pub local: Local,
}

/// Why a configuration is refused.
#[derive(Clone, Copy, Debug, PartialEq, Eq, Structural)]
pub enum InvalidConfig {
    /// The idle timeout does not exceed the heartbeat interval.
    HeartbeatInterval,
    /// Only one of user name and password is set.
    LocalAuthentication,
}

/// Why a server address is refused.
#[derive(Clone, Copy, Debug, PartialEq, Eq, Structural)]
pub enum InvalidServer {
    /// The text is not a name and a port with one colon between them.
    Address,
    /// What follows the colon is no port number.
    Port,
}

/// The reason for which a configuration is refused, if it is: the idle
/// timeout must exceed the heartbeat interval, and user name and
/// password are set together or not at all.
pub open spec fn config_fault(
    timeout: u64,
    heartbeat: u64,
    has_username: bool,
    has_password: bool,
) -> Option<InvalidConfig> {
    if timeout <= heartbeat {
        Some(InvalidConfig::HeartbeatInterval)
    } else if has_username != has_password {
        Some(InvalidConfig::LocalAuthentication)
    } else {
        None
    }
}

impl Config {
    /// Checks what no single setting can show: how the settings fit
    /// together.
    pub fn validate(&self) -> (r: Result<(), InvalidConfig>)
        ensures
            match r {
                Ok(()) => config_fault(
                    self.relay.timeout,
                    self.relay.heartbeat,
                    self.local.username is Some,
                    self.local.password is Some,
                ) is None,
                Err(e) => config_fault(
                    self.relay.timeout,
                    self.relay.heartbeat,
                    self.local.username is Some,
                    self.local.password is Some,
                ) == Some(e),
            },
    {
        if !keeps_alive(self.relay.heartbeat, self.relay.timeout) {
            Err(InvalidConfig::HeartbeatInterval)
        } else if self.local.username.is_some() != self.local.password.is_some() {
            Err(InvalidConfig::LocalAuthentication)
        } else {
            Ok(())
        }
    }
}

/// Whether the colon at `i` is the only one in `s`.
pub open spec fn splits_at(s: Seq<char>, i: int) -> bool {
    &&& 0 <= i < s.len()
    &&& s[i] == ':'
    &&& forall|j: int| 0 <= j < s.len() && j != i ==> s[j] != ':'
}

/// `str::split_once` at a colon: what stands before the first colon and
/// what stands after it, or nothing where there is no colon.
#[verifier::external_body]
fn split_once_at_colon(s: &str) -> (r: Option<(&str, &str)>)
    ensures
        match r {
            Some((before, after)) => {
                &&& s@ == before@ + seq![':'] + after@
                &&& !before@.contains(':')
            },
            None => !s@.contains(':'),
        },
{
    s.split_once(':')
}

/// Reads a server address written as `name:port`.
pub fn deserialize_server(s: &str) -> (r: Result<(String, u16), InvalidServer>)
    ensures
        match r {
            Ok((name, port)) => exists|i: int|
                splits_at(s@, i) && name@ == s@.take(i) && decimal_up_to(s@.skip(i + 1), 65535)
                    == Some(port as nat),
            Err(InvalidServer::Address) => !exists|i: int| splits_at(s@, i),
            Err(InvalidServer::Port) => exists|i: int|
                splits_at(s@, i) && decimal_up_to(s@.skip(i + 1), 65535) is None,
        },
{
    let (name, port) = match split_once_at_colon(s) {
        Some(parts) => parts,
        None => {
            return Err(InvalidServer::Address);
        },
    };
    let ghost at = name@.len() as int;
    assert(s@[at] == ':');
    assert(s@.skip(at + 1) =~= port@);
    match split_once_at_colon(port) {
        Some((head, _)) => {
            proof {
                let k = head@.len() as int;
                assert(port@[k] == ':');
            }
            return Err(InvalidServer::Address);
        },
        None => {},
    }
    proof {
        assert(splits_at(s@, at));
    }
    match parse_decimal(port, 65535) {
        Some(port) => Ok((name.to_owned(), port as u16)),
        None => Err(InvalidServer::Port),
    }
}

} // verus!
