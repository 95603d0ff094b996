use vstd::prelude::*;
use vstd::slice::slice_subrange;
use crate::protocol::address::{parse_address, Address, AddressView};
use crate::protocol::error::{short_by, MarshalingError, ProtocolError, UnexpectedEof};
use crate::protocol::packet::{parse_packet, Packet, PacketView};
use crate::protocol::wire::{be16, from_be16, push_all, push_be16, read_be16, VERSION};

verus! {

/// Type code of `Authenticate`.
pub const TYPE_AUTHENTICATE: u8 = 0x00;

/// Type code of `Connect`.
pub const TYPE_CONNECT: u8 = 0x01;

/// Type code of `Packet`.
pub const TYPE_PACKET: u8 = 0x02;

/// Type code of `Dissociate`.
pub const TYPE_DISSOCIATE: u8 = 0x03;

/// Type code of `Heartbeat`.
pub const TYPE_HEARTBEAT: u8 = 0x04;

/// The length of an authentication token.
pub const TOKEN_LEN: usize = 32;

/// One command frame.
#[derive(Debug, PartialEq, Eq)]
pub enum Command {
    /// Proves knowledge of the shared token; the field is the token's digest.
    Authenticate([u8; 32]),
    /// Asks for a TCP relay to `addr`.
    Connect { addr: Address },
    /// Announces one fragment of a UDP packet; the payload follows the frame.
    Packet(Packet),
    /// Ends a UDP association.
    Dissociate { assoc_id: u16 },
    /// Keeps an idle connection alive.
    Heartbeat,
}

/// What a `Command` stands for.
pub enum CommandView {
    Authenticate(Seq<u8>),
    Connect(AddressView),
    Packet(PacketView),
    Dissociate(u16),
    Heartbeat,
}

impl View for Command {
    type V = CommandView;

    open spec fn view(&self) -> CommandView {
        match *self {
            Command::Authenticate(token) => CommandView::Authenticate(token@),
            Command::Connect { addr } => CommandView::Connect(addr@),
            Command::Packet(pkt) => CommandView::Packet(pkt@),
            Command::Dissociate { assoc_id } => CommandView::Dissociate(assoc_id),
            Command::Heartbeat => CommandView::Heartbeat,
        }
    }
}

impl Clone for Command {
    fn clone(&self) -> (copy: Self)
        ensures
            copy@ == self@,
    {
        match self {
            Command::Authenticate(token) => Command::Authenticate(*token),
            Command::Connect { addr } => Command::Connect { addr: addr.clone() },
            Command::Packet(pkt) => Command::Packet(pkt.clone()),
            Command::Dissociate { assoc_id } => Command::Dissociate { assoc_id: *assoc_id },
            Command::Heartbeat => Command::Heartbeat,
        }
    }
}

impl CommandView {
    /// Whether the command has a wire form.
    pub open spec fn wf(self) -> bool {
        match self {
            CommandView::Authenticate(token) => token.len() == TOKEN_LEN,
            CommandView::Connect(addr) => addr.wf(),
            CommandView::Packet(pkt) => pkt.wf(),
            CommandView::Dissociate(_) => true,
            CommandView::Heartbeat => true,
        }
    }

    /// The command's type code.
    pub open spec fn type_code(self) -> u8 {
        match self {
            CommandView::Authenticate(_) => TYPE_AUTHENTICATE,
            CommandView::Connect(_) => TYPE_CONNECT,
            CommandView::Packet(_) => TYPE_PACKET,
            CommandView::Dissociate(_) => TYPE_DISSOCIATE,
            CommandView::Heartbeat => TYPE_HEARTBEAT,
        }
    }

    /// What follows the two header bytes.
    pub open spec fn body(self) -> Seq<u8> {
        match self {
            CommandView::Authenticate(token) => token,
            CommandView::Connect(addr) => addr.wire(),
            CommandView::Packet(pkt) => pkt.wire(),
            CommandView::Dissociate(assoc_id) => be16(assoc_id),
            CommandView::Heartbeat => Seq::empty(),
        }
    }

    /// The wire form: the version, the type code, the body.
    pub open spec fn wire(self) -> Seq<u8> {
        seq![VERSION, self.type_code()] + self.body()
    }

    /// The length of the wire form.
    pub open spec fn wire_len(self) -> int {
        match self {
            CommandView::Authenticate(_) => 2 + TOKEN_LEN,
            CommandView::Connect(addr) => 2 + addr.wire_len(),
            CommandView::Packet(pkt) => 10 + pkt.addr.wire_len(),
            CommandView::Dissociate(_) => 4,
            CommandView::Heartbeat => 2,
        }
    }
}

/// What decoding a command from the front of `b` gives: the command and the
/// number of bytes its frame took, or the reason why there is none. The two
/// header bytes are read first, the version is judged before the type code,
/// and a frame that stops short says by how much.
pub open spec fn parse_command(b: Seq<u8>) -> Result<(CommandView, int), MarshalingError> {
    if b.len() < 2 {
        Err(short_by(2 - b.len()))
    } else if b[0] != VERSION {
        Err(MarshalingError::Protocol(ProtocolError::UnsupportedVersion(b[0])))
    } else if b[1] == TYPE_AUTHENTICATE {
        if b.len() < 2 + TOKEN_LEN {
            Err(short_by(2 + TOKEN_LEN - b.len()))
        } else {
            Ok((CommandView::Authenticate(b.subrange(2, 2 + TOKEN_LEN as int)), 2 + TOKEN_LEN))
        }
    } else if b[1] == TYPE_CONNECT {
        match parse_address(b.skip(2)) {
            Ok((addr, n)) => Ok((CommandView::Connect(addr), 2 + n)),
            Err(e) => Err(e),
        }
    } else if b[1] == TYPE_PACKET {
        match parse_packet(b.skip(2)) {
            Ok((pkt, n)) => Ok((CommandView::Packet(pkt), 2 + n)),
            Err(e) => Err(e),
        }
    } else if b[1] == TYPE_DISSOCIATE {
        if b.len() < 4 {
            Err(short_by(4 - b.len()))
        } else {
            Ok((CommandView::Dissociate(from_be16(b[2], b[3])), 4))
        }
    } else if b[1] == TYPE_HEARTBEAT {
        Ok((CommandView::Heartbeat, 2))
    } else {
        Err(MarshalingError::Protocol(ProtocolError::UnsupportedCommand(b[1])))
    }
}

impl Command {
    /// Whether the command has a wire form.
    pub fn is_valid(&self) -> (valid: bool)
        ensures
            valid == self@.wf(),
    {
        match self {
            Command::Connect { addr } => addr.is_valid(),
            Command::Packet(pkt) => pkt.addr().is_valid(),
            _ => true,
        }
    }

    /// The command's type code.
    pub fn type_code(&self) -> (code: u8)
        ensures
            code == self@.type_code(),
    {
        match self {
            Command::Authenticate(_) => TYPE_AUTHENTICATE,
            Command::Connect { .. } => TYPE_CONNECT,
            Command::Packet(_) => TYPE_PACKET,
            Command::Dissociate { .. } => TYPE_DISSOCIATE,
            Command::Heartbeat => TYPE_HEARTBEAT,
        }
    }

    /// The number of bytes that `encode` produces, found without encoding.
    pub fn serialized_len(&self) -> (n: usize)
        requires
            self@.wf(),
        ensures
            n == self@.wire().len(),
            n == self@.wire_len(),
    {
        match self {
            Command::Authenticate(_) => 2 + TOKEN_LEN,
            Command::Connect { addr } => 2 + addr.serialized_len(),
            Command::Packet(pkt) => 2 + pkt.len(),
            Command::Dissociate { .. } => 4,
            Command::Heartbeat => 2,
        }
    }

    /// Appends the command's frame to `buf`.
    pub fn write_to(&self, buf: &mut Vec<u8>)
        requires
            self@.wf(),
        ensures
            final(buf)@ == old(buf)@ + self@.wire(),
    {
        buf.push(VERSION);
        buf.push(self.type_code());
        match self {
            Command::Authenticate(token) => {
                push_all(buf, token.as_slice());
            },
            Command::Connect { addr } => {
                addr.encode(buf);
            },
            Command::Packet(pkt) => {
                pkt.encode(buf);
            },
            Command::Dissociate { assoc_id } => {
                push_be16(buf, *assoc_id);
            },
            Command::Heartbeat => {},
        }
    }

    /// The command's frame.
    pub fn encode(&self) -> (frame: Vec<u8>)
        requires
            self@.wf(),
        ensures
            frame@ == self@.wire(),
            frame@.len() == self@.wire_len(),
    {
        let mut frame = Vec::with_capacity(self.serialized_len());
        self.write_to(&mut frame);
        frame
    }

    /// Decodes one command from the front of `bytes` and says how many bytes
    /// its frame took. What follows the frame is not looked at.
    pub fn decode(bytes: &[u8]) -> (r: Result<(Command, usize), MarshalingError>)
        ensures
            match r {
                Ok((cmd, n)) => parse_command(bytes@) == Ok::<_, MarshalingError>(
                    (cmd@, n as int),
                ),
                Err(e) => parse_command(bytes@) == Err::<(CommandView, int), _>(e),
            },
    {
        let len = bytes.len();
        if len < 2 {
            return Err(MarshalingError::Io(UnexpectedEof { needed: 2 - len }));
        }
        if bytes[0] != VERSION {
            return Err(MarshalingError::Protocol(ProtocolError::UnsupportedVersion(bytes[0])));
        }
        let code = bytes[1];
        let body = slice_subrange(bytes, 2, len);
        if code == TYPE_AUTHENTICATE {
            if len < 2 + TOKEN_LEN {
                return Err(MarshalingError::Io(UnexpectedEof { needed: 2 + TOKEN_LEN - len }));
            }
            let mut token = [0u8;32];
            let mut i: usize = 0;
            while i < TOKEN_LEN
                invariant
                    i <= TOKEN_LEN,
                    bytes@.len() >= 2 + TOKEN_LEN,
                    forall|j: int| 0 <= j < i ==> token@[j] == bytes@[2 + j],
                decreases TOKEN_LEN - i,
            {
                token[i] = bytes[2 + i];
                i += 1;
            }
            assert(token@ =~= bytes@.subrange(2, 2 + TOKEN_LEN as int));
            Ok((Command::Authenticate(token), 2 + TOKEN_LEN))
        } else if code == TYPE_CONNECT {
            match Address::decode(body) {
                Ok((addr, n)) => Ok((Command::Connect { addr }, 2 + n)),
                Err(e) => Err(e),
            }
        } else if code == TYPE_PACKET {
            match Packet::decode(body) {
                Ok((pkt, n)) => Ok((Command::Packet(pkt), 2 + n)),
                Err(e) => Err(e),
            }
        } else if code == TYPE_DISSOCIATE {
            if len < 4 {
                return Err(MarshalingError::Io(UnexpectedEof { needed: 4 - len }));
            }
            Ok((Command::Dissociate { assoc_id: read_be16(bytes, 2) }, 4))
        } else if code == TYPE_HEARTBEAT {
            Ok((Command::Heartbeat, 2))
        } else {
            Err(MarshalingError::Protocol(ProtocolError::UnsupportedCommand(code)))
        }
    }
}

/// Every command that has a wire form is read back from its frame
/// unchanged, whatever follows the frame, and the number of bytes taken is
/// the frame's length, which is the length that `serialized_len` reports.
pub proof fn command_round_trip(c: CommandView, rest: Seq<u8>)
    requires
        c.wf(),
    ensures
        c.wire().len() == c.wire_len(),
        parse_command(c.wire() + rest) == Ok::<_, MarshalingError>((c, c.wire_len())),
{
    let b = c.wire() + rest;
    assert(b.skip(2) =~= c.body() + rest);
    match c {
        CommandView::Authenticate(token) => {
            assert(b.subrange(2, 2 + TOKEN_LEN as int) =~= token);
        },
        CommandView::Connect(addr) => {
            crate::protocol::address::address_round_trip(addr, rest);
        },
        CommandView::Packet(pkt) => {
            crate::protocol::packet::packet_round_trip(pkt, rest);
        },
        CommandView::Dissociate(assoc_id) => {
        },
        CommandView::Heartbeat => {},
    }
}

/// A frame that opens with another version is refused as
/// `UnsupportedVersion`, and one of the right version whose type code names
/// no command, as `UnsupportedCommand`.
pub proof fn command_rejects_unknown_header(b: Seq<u8>)
    requires
        b.len() >= 2,
    ensures
        b[0] != VERSION ==> parse_command(b) == Err::<(CommandView, int), _>(
            MarshalingError::Protocol(ProtocolError::UnsupportedVersion(b[0])),
        ),
        b[0] == VERSION && b[1] > TYPE_HEARTBEAT ==> parse_command(b) == Err::<
            (CommandView, int),
            _,
        >(MarshalingError::Protocol(ProtocolError::UnsupportedCommand(b[1]))),
{
}

/// What decoding accepts is canonical: the command read has a wire form,
/// and its frame is the very bytes that were read, which lie within the
/// input. No two runs of bytes decode to the same command.
pub proof fn command_parse_is_canonical(b: Seq<u8>)
    ensures
        match parse_command(b) {
            Ok((c, n)) => c.wf() && 2 <= n <= b.len() && c.wire() == b.subrange(0, n),
            Err(_) => true,
        },
{
    if b.len() >= 2 {
        crate::protocol::address::address_parse_is_canonical(b.skip(2));
        crate::protocol::packet::packet_parse_is_canonical(b.skip(2));
        match parse_command(b) {
            Ok((c, n)) => {
                match c {
                    CommandView::Authenticate(token) => {},
                    CommandView::Connect(addr) => {
                    },
                    CommandView::Packet(pkt) => {
                    },
                    CommandView::Dissociate(assoc_id) => {
                    },
                    CommandView::Heartbeat => {},
                }
            },
            Err(_) => {},
        }
    }
}

} // verus!
