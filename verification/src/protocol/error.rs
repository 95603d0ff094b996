use vstd::prelude::*;

verus! {

/// A frame that is complete but breaks the protocol.
#[derive(Clone, Copy, Debug, PartialEq, Eq, Structural)]
pub enum ProtocolError {
    /// The first header byte is not the protocol version; it is carried along.
    UnsupportedVersion(u8),
    /// The second header byte names no command; it is carried along.
    UnsupportedCommand(u8),
    /// The address tag names no address form; it is carried along.
    InvalidAddressType(u8),
}

/// The input ended inside a frame.
#[derive(Clone, Copy, Debug, PartialEq, Eq, Structural)]
pub struct UnexpectedEof {
    /// How many more bytes must arrive before decoding can get any further.
    pub needed: usize,
}

/// Why a frame could not be decoded.
#[derive(Clone, Copy, Debug, PartialEq, Eq, Structural)]
pub enum MarshalingError {
    /// The reader ran dry before the frame was complete.
    Io(UnexpectedEof),
    /// The frame breaks the protocol.
    Protocol(ProtocolError),
    /// A domain name is not valid UTF-8.
    InvalidEncoding,
}

/// The error of an input that stops `needed` bytes short.
pub open spec fn short_by(needed: int) -> MarshalingError {
    MarshalingError::Io(UnexpectedEof { needed: needed as usize })
}

impl MarshalingError {
    /// A sentence that names the error.
    pub fn message(&self) -> (text: &'static str)
        ensures
            text@ == match *self {
                MarshalingError::Io(_) => "unexpected end of input"@,
                MarshalingError::Protocol(ProtocolError::UnsupportedVersion(_)) =>
                    "unsupported protocol version"@,
                MarshalingError::Protocol(ProtocolError::UnsupportedCommand(_)) =>
                    "unsupported command"@,
                MarshalingError::Protocol(ProtocolError::InvalidAddressType(_)) =>
                    "invalid address type"@,
                MarshalingError::InvalidEncoding => "invalid address encoding"@,
            },
    {
        match self {
            MarshalingError::Io(_) => "unexpected end of input",
            MarshalingError::Protocol(ProtocolError::UnsupportedVersion(_)) => "unsupported protocol version",
            MarshalingError::Protocol(ProtocolError::UnsupportedCommand(_)) => "unsupported command",
            MarshalingError::Protocol(ProtocolError::InvalidAddressType(_)) => "invalid address type",
            MarshalingError::InvalidEncoding => "invalid address encoding",
        }
    }
}

} // verus!
