use vstd::prelude::*;
use crate::common::buf::{bytes_as_slice, bytes_len, bytes_slice, contents};
use crate::protocol::address::{Address, AddressView};
use crate::protocol::command::{parse_command, Command, CommandView};
use crate::protocol::error::{MarshalingError, ProtocolError, UnexpectedEof};
use crate::protocol::packet::{Packet, PacketView};

verus! {

/// What a peer asks for, once the command that opens a stream or a
/// datagram has been read. `H` is the driver's handle on the stream.
#[non_exhaustive]
pub enum RawIncomingTask<H> {
    /// The peer proves knowledge of the token.
    Authenticate([u8; 32]),
    /// The peer asks for a TCP relay over the bidirectional stream.
    Connect(Address, H),
    /// A fragment whose payload is the rest of the datagram.
    PacketFromDatagram(Packet, bytes::Bytes),
    /// A fragment whose payload is still to be read from the stream.
    PacketFromUniStream(Packet, H),
    /// The peer ends an association.
    Dissociate(u16),
    /// The peer keeps the connection alive.
    Heartbeat,
}

/// What a task stands for.
pub enum TaskView<H> {
    Authenticate(Seq<u8>),
    Connect(AddressView, H),
    PacketFromDatagram(PacketView, Seq<u8>),
    PacketFromUniStream(PacketView, H),
    Dissociate(u16),
    Heartbeat,
}

impl<H> View for RawIncomingTask<H> {
    type V = TaskView<H>;

    open spec fn view(&self) -> TaskView<H> {
        match *self {
            RawIncomingTask::Authenticate(token) => TaskView::Authenticate(token@),
            RawIncomingTask::Connect(addr, stream) => TaskView::Connect(addr@, stream),
            RawIncomingTask::PacketFromDatagram(pkt, payload) => TaskView::PacketFromDatagram(
                pkt@,
                contents(payload),
            ),
            RawIncomingTask::PacketFromUniStream(pkt, stream) => TaskView::PacketFromUniStream(
                pkt@,
                stream,
            ),
            RawIncomingTask::Dissociate(assoc_id) => TaskView::Dissociate(assoc_id),
            RawIncomingTask::Heartbeat => TaskView::Heartbeat,
        }
    }
}

impl<H> TaskView<H> {
    /// The stream that the task holds, if it holds one.
    pub open spec fn stream(self) -> Option<H> {
        match self {
            TaskView::Connect(_, stream) => Some(stream),
            TaskView::PacketFromUniStream(_, stream) => Some(stream),
            _ => None,
        }
    }
}

impl<H> RawIncomingTask<H> {
    /// Gives up the task and keeps the stream that it holds, if it holds
    /// one.
    pub fn into_stream(self) -> (stream: Option<H>)
        ensures
            stream == self@.stream(),
    {
        match self {
            RawIncomingTask::Connect(_, stream) => Some(stream),
            RawIncomingTask::PacketFromUniStream(_, stream) => Some(stream),
            _ => None,
        }
    }
}

/// Why a stream or a datagram gave no task.
pub enum IncomingError<H> {
    /// The source ended inside the command.
    Io(UnexpectedEof),
    /// The command breaks the protocol.
    Protocol(ProtocolError),
    /// A domain name in the command is not valid UTF-8.
    InvalidEncoding,
    /// A bidirectional stream came where none is expected.
    UnexpectedIncomingBiStream(H),
    /// A unidirectional stream came where none is expected.
    UnexpectedIncomingUniStream(H),
    /// A datagram came where none is expected.
    UnexpectedIncomingDatagram(bytes::Bytes),
    /// A bidirectional stream opened with a command other than `Connect`;
    /// the stream comes back so that it can be closed.
    UnexpectedCommandFromBiStream(H, Command),
    /// A unidirectional stream opened with `Connect`; the stream comes
    /// back so that it can be closed.
    UnexpectedCommandFromUniStream(H, Command),
    /// A datagram opened with a command other than `Packet`.
    UnexpectedCommandFromDatagram(bytes::Bytes, Command),
}

impl<H> IncomingError<H> {
    /// The same failure of decoding, as an error of the demultiplexer.
    pub open spec fn of_marshaling(err: MarshalingError) -> Self {
        match err {
            MarshalingError::Io(eof) => IncomingError::Io(eof),
            MarshalingError::Protocol(e) => IncomingError::Protocol(e),
            MarshalingError::InvalidEncoding => IncomingError::InvalidEncoding,
        }
    }

    /// The same failure of decoding, as an error of the demultiplexer.
    pub fn from_marshaling_error(err: MarshalingError) -> (e: Self)
        ensures
            e == Self::of_marshaling(err),
    {
        match err {
            MarshalingError::Io(eof) => IncomingError::Io(eof),
            MarshalingError::Protocol(e) => IncomingError::Protocol(e),
            MarshalingError::InvalidEncoding => IncomingError::InvalidEncoding,
        }
    }
}

/// The task that a bidirectional stream carries, given the command that
/// opens it: such a stream is for `Connect` alone.
pub fn accept_from_bi_stream<H>(cmd: Command, stream: H) -> (r: Result<
    RawIncomingTask<H>,
    IncomingError<H>,
>)
    ensures
        match cmd@ {
            CommandView::Connect(target) => r matches Ok(RawIncomingTask::Connect(addr, s))
                && addr@ == target && s == stream,
            _ => r matches Err(IncomingError::UnexpectedCommandFromBiStream(s, c)) && s == stream
                && c == cmd,
        },
{
    match cmd {
        Command::Connect { addr } => Ok(RawIncomingTask::Connect(addr, stream)),
        cmd => Err(IncomingError::UnexpectedCommandFromBiStream(stream, cmd)),
    }
}

/// The task that a unidirectional stream carries, given the command that
/// opens it: anything but `Connect`. The payload of a packet is left on
/// the stream.
pub fn accept_from_uni_stream<H>(cmd: Command, stream: H) -> (r: Result<
    RawIncomingTask<H>,
    IncomingError<H>,
>)
    ensures
        match cmd@ {
            CommandView::Authenticate(token) => r matches Ok(RawIncomingTask::Authenticate(t))
                && t@ == token,
            CommandView::Packet(header) => r matches Ok(RawIncomingTask::PacketFromUniStream(pkt, s))
                && pkt@ == header && s == stream,
            CommandView::Dissociate(assoc_id) => r matches Ok(RawIncomingTask::Dissociate(id))
                && id == assoc_id,
            CommandView::Heartbeat => r matches Ok(RawIncomingTask::Heartbeat),
            CommandView::Connect(_) => r matches Err(
                IncomingError::UnexpectedCommandFromUniStream(s, c),
            ) && s == stream && c == cmd,
        },
{
    match cmd {
        Command::Authenticate(token) => Ok(RawIncomingTask::Authenticate(token)),
        Command::Packet(pkt) => Ok(RawIncomingTask::PacketFromUniStream(pkt, stream)),
        Command::Dissociate { assoc_id } => Ok(RawIncomingTask::Dissociate(assoc_id)),
        Command::Heartbeat => Ok(RawIncomingTask::Heartbeat),
        cmd => Err(IncomingError::UnexpectedCommandFromUniStream(stream, cmd)),
    }
}

/// The task that a datagram carries: it must open with a `Packet`
/// command, and what follows the command is the fragment's payload.
pub fn accept_from_datagram<H>(datagram: bytes::Bytes) -> (r: Result<
    RawIncomingTask<H>,
    IncomingError<H>,
>)
    ensures
        match parse_command(contents(datagram)) {
            Ok((CommandView::Packet(header), n)) => r matches Ok(
                RawIncomingTask::PacketFromDatagram(pkt, payload),
            ) && pkt@ == header && contents(payload) == contents(datagram).skip(n),
            Ok((other, _)) => r matches Err(IncomingError::UnexpectedCommandFromDatagram(d, c))
                && d == datagram && c@ == other,
            Err(e) => r matches Err(err) && err == IncomingError::<H>::of_marshaling(e),
        },
{
    let cmd = match Command::decode(bytes_as_slice(&datagram)) {
        Ok((cmd, taken)) => (cmd, taken),
        Err(e) => {
            return Err(IncomingError::from_marshaling_error(e));
        },
    };
    match cmd {
        (Command::Packet(pkt), taken) => {
            let len = bytes_len(&datagram);
            let payload = bytes_slice(&datagram, taken, len);
            Ok(RawIncomingTask::PacketFromDatagram(pkt, payload))
        },
        (cmd, _) => Err(IncomingError::UnexpectedCommandFromDatagram(datagram, cmd)),
    }
}

} // verus!
