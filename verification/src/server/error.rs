use vstd::prelude::*;
use crate::common::packet::AssembleError;
use crate::common::udp::FragmentError;
use crate::protocol::error::{MarshalingError, ProtocolError};

verus! {

/// What can go wrong on a relay connection.
#[derive(Clone, Copy, Debug, PartialEq, Eq, Structural)]
pub enum Error {
    /// A socket operation failed.
    Io,
    /// The QUIC connection failed.
    Connection,
    /// A command could not be decoded.
    Marshaling(MarshalingError),
    /// A fragment broke the rules of fragmentation.
    Assemble(AssembleError),
    /// A command came over a channel that does not carry it.
    UnexpectedCommand,
    /// The peer authenticated a second time.
    DuplicatedAuth,
    /// Keying material for the token could not be exported.
    ExportKeyingMaterial,
    /// The peer sent a wrong token, or none in time.
    AuthFailed,
    /// A packet came from a source that the association does not use.
    UnexpectedPacketSource,
    /// A name resolved to an IPv6 address while IPv6 relay is off.
    UdpRelayIpv6Disabled,
    /// The reassembly table outgrew its bounds.
    OversizedReassembly,
    /// The target of a relay could not be resolved.
    Resolve,
    /// A UDP packet is larger than the relay is set to carry.
    PacketTooLarge,
    /// A UDP packet cannot be cut into fragments for the peer.
    Fragment(FragmentError),
    /// A fragment came for an association that has been ended.
    Dissociated,
    /// A task came before authentication and the holding area is full.
    Backlog,
    /// A task came after the connection began to close.
    Closed,
}

/// How far an error reaches.
#[derive(Clone, Copy, Debug, PartialEq, Eq, Structural)]
pub enum Severity {
    /// The connection is closed.
    FatalForConnection,
    /// The stream or task at fault is closed; the connection goes on.
    FatalForStream,
    /// The error is logged and work goes on.
    Recoverable,
    /// The transport has failed; the connection is gone already.
    Transport,
}

/// Code with which a connection is closed after a failed or repeated
/// authentication.
pub const CODE_AUTH: u32 = 0x0101;

/// Code with which a connection is closed after a breach of the protocol.
pub const CODE_PROTOCOL: u32 = 0x0102;

/// Code with which a connection is closed when it ran out of bounds.
pub const CODE_RESOURCE: u32 = 0x0103;

/// Code with which streams are closed that outlast the grace period of a
/// closing connection, and streams whose task was refused.
pub const CODE_STREAM: u32 = 0x0201;

/// How far each error reaches.
pub open spec fn severity_of(e: Error) -> Severity {
    match e {
        Error::Io => Severity::Recoverable,
        Error::Connection => Severity::Transport,
        Error::Marshaling(MarshalingError::Protocol(ProtocolError::UnsupportedVersion(_))) =>
            Severity::FatalForConnection,
        Error::Marshaling(_) => Severity::FatalForStream,
        Error::Assemble(_) => Severity::FatalForStream,
        Error::UnexpectedCommand => Severity::FatalForStream,
        Error::DuplicatedAuth => Severity::FatalForConnection,
        Error::ExportKeyingMaterial => Severity::FatalForConnection,
        Error::AuthFailed => Severity::FatalForConnection,
        Error::UnexpectedPacketSource => Severity::FatalForStream,
        Error::UdpRelayIpv6Disabled => Severity::Recoverable,
        Error::OversizedReassembly => Severity::FatalForConnection,
        Error::Resolve => Severity::Recoverable,
        Error::PacketTooLarge => Severity::Recoverable,
        Error::Fragment(_) => Severity::Recoverable,
        Error::Dissociated => Severity::FatalForStream,
        Error::Backlog => Severity::FatalForStream,
        Error::Closed => Severity::FatalForStream,
    }
}

/// The code that is reported to the peer for each error that closes a
/// connection or a stream.
pub open spec fn code_of(e: Error) -> Option<u32> {
    match severity_of(e) {
        Severity::FatalForConnection => Some(
            match e {
                Error::DuplicatedAuth | Error::AuthFailed | Error::ExportKeyingMaterial => CODE_AUTH,
                Error::OversizedReassembly => CODE_RESOURCE,
                _ => CODE_PROTOCOL,
            },
        ),
        Severity::FatalForStream => Some(CODE_STREAM),
        Severity::Recoverable => None,
        Severity::Transport => None,
    }
}

impl Error {
    /// How far the error reaches.
    pub fn severity(&self) -> (s: Severity)
        ensures
            s == severity_of(*self),
    {
        match self {
            Error::Io => Severity::Recoverable,
            Error::Connection => Severity::Transport,
            Error::Marshaling(MarshalingError::Protocol(ProtocolError::UnsupportedVersion(_))) =>
                Severity::FatalForConnection,
            Error::Marshaling(_) => Severity::FatalForStream,
            Error::Assemble(_) => Severity::FatalForStream,
            Error::UnexpectedCommand => Severity::FatalForStream,
            Error::DuplicatedAuth => Severity::FatalForConnection,
            Error::ExportKeyingMaterial => Severity::FatalForConnection,
            Error::AuthFailed => Severity::FatalForConnection,
            Error::UnexpectedPacketSource => Severity::FatalForStream,
            Error::UdpRelayIpv6Disabled => Severity::Recoverable,
            Error::OversizedReassembly => Severity::FatalForConnection,
            Error::Resolve => Severity::Recoverable,
            Error::PacketTooLarge => Severity::Recoverable,
            Error::Fragment(_) => Severity::Recoverable,
            Error::Dissociated => Severity::FatalForStream,
            Error::Backlog => Severity::FatalForStream,
            Error::Closed => Severity::FatalForStream,
        }
    }

    /// The code to close the connection or the stream with, where the error
    /// closes one.
    pub fn close_code(&self) -> (code: Option<u32>)
        ensures
            code == code_of(*self),
            code is Some <==> severity_of(*self) == Severity::FatalForConnection || severity_of(
                *self,
            ) == Severity::FatalForStream,
    {
        match self.severity() {
            Severity::FatalForConnection => match self {
                Error::DuplicatedAuth | Error::AuthFailed | Error::ExportKeyingMaterial => Some(
                    CODE_AUTH,
                ),
                Error::OversizedReassembly => Some(CODE_RESOURCE),
                _ => Some(CODE_PROTOCOL),
            },
            Severity::FatalForStream => Some(CODE_STREAM),
            Severity::Recoverable => None,
            Severity::Transport => None,
        }
    }

    /// A sentence that names the error.
    pub fn message(&self) -> (text: &'static str)
        ensures
            text@ == match *self {
                Error::Io => "socket operation failed"@,
                Error::Connection => "connection failed"@,
                Error::Marshaling(MarshalingError::Io(_)) => "unexpected end of input"@,
                Error::Marshaling(
                    MarshalingError::Protocol(ProtocolError::UnsupportedVersion(_)),
                ) => "unsupported protocol version"@,
                Error::Marshaling(
                    MarshalingError::Protocol(ProtocolError::UnsupportedCommand(_)),
                ) => "unsupported command"@,
                Error::Marshaling(
                    MarshalingError::Protocol(ProtocolError::InvalidAddressType(_)),
                ) => "invalid address type"@,
                Error::Marshaling(MarshalingError::InvalidEncoding) => "invalid address encoding"@,
                Error::Assemble(_) => "malformed fragment"@,
                Error::UnexpectedCommand => "unexpected command"@,
                Error::DuplicatedAuth => "duplicated authentication"@,
                Error::ExportKeyingMaterial => "token length too short"@,
                Error::AuthFailed => "authentication failed"@,
                Error::UnexpectedPacketSource => "received packet from unexpected source"@,
                Error::UdpRelayIpv6Disabled =>
                    "resolved to an IPv6 address but IPv6 UDP relay disabled"@,
                Error::OversizedReassembly => "reassembly table out of bounds"@,
                Error::Resolve => "target could not be resolved"@,
                Error::PacketTooLarge => "packet larger than the relay carries"@,
                Error::Fragment(_) => "packet cannot be cut into fragments"@,
                Error::Dissociated => "association has been ended"@,
                Error::Backlog => "too many tasks before authentication"@,
                Error::Closed => "connection is closing"@,
            },
    {
        match self {
            Error::Io => "socket operation failed",
            Error::Connection => "connection failed",
            Error::Marshaling(e) => e.message(),
            Error::Assemble(_) => "malformed fragment",
            Error::UnexpectedCommand => "unexpected command",
            Error::DuplicatedAuth => "duplicated authentication",
            Error::ExportKeyingMaterial => "token length too short",
            Error::AuthFailed => "authentication failed",
            Error::UnexpectedPacketSource => "received packet from unexpected source",
            Error::UdpRelayIpv6Disabled => "resolved to an IPv6 address but IPv6 UDP relay disabled",
            Error::OversizedReassembly => "reassembly table out of bounds",
            Error::Resolve => "target could not be resolved",
            Error::PacketTooLarge => "packet larger than the relay carries",
            Error::Fragment(_) => "packet cannot be cut into fragments",
            Error::Dissociated => "association has been ended",
            Error::Backlog => "too many tasks before authentication",
            Error::Closed => "connection is closing",
        }
    }
}

} // verus!
