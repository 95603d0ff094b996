use vstd::prelude::*;
use crate::protocol::address::{parse_address, Address, AddressView};
use crate::protocol::error::{short_by, MarshalingError, UnexpectedEof};
use crate::protocol::wire::{be16, from_be16, push_be16, read_be16};

verus! {

/// The header of one fragment of a relayed UDP packet.
///
/// ```text
/// +----------+--------+------------+---------+------+----------+
/// | ASSOC_ID | PKT_ID | FRAG_TOTAL | FRAG_ID | SIZE |   ADDR   |
/// +----------+--------+------------+---------+------+----------+
/// |    2     |   2    |     1      |    1    |  2   | Variable |
/// +----------+--------+------------+---------+------+----------+
/// ```
#[derive(Debug, PartialEq, Eq)]
pub struct Packet {
    assoc_id: u16,
    pkt_id: u16,
    frag_total: u8,
    frag_id: u8,
    size: u16,
    addr: Address,
}

/// What a `Packet` header stands for.
pub struct PacketView {
    pub assoc_id: u16,
    pub pkt_id: u16,
    pub frag_total: u8,
    pub frag_id: u8,
    pub size: u16,
    pub addr: AddressView,
}

impl View for Packet {
    type V = PacketView;

    closed spec fn view(&self) -> PacketView {
        PacketView {
            assoc_id: self.assoc_id,
            pkt_id: self.pkt_id,
            frag_total: self.frag_total,
            frag_id: self.frag_id,
            size: self.size,
            addr: self.addr@,
        }
    }
}

impl PacketView {
    /// Whether the header has a wire form.
    pub open spec fn wf(self) -> bool {
        self.addr.wf()
    }

    /// The wire form: the fixed fields, big-endian, then the address.
    pub open spec fn wire(self) -> Seq<u8> {
        be16(self.assoc_id) + be16(self.pkt_id) + seq![self.frag_total, self.frag_id] + be16(
            self.size,
        ) + self.addr.wire()
    }
}

/// What decoding a packet header from the front of `b` gives.
pub open spec fn parse_packet(b: Seq<u8>) -> Result<(PacketView, int), MarshalingError> {
    if b.len() < 8 {
        Err(short_by(8 - b.len()))
    } else {
        match parse_address(b.skip(8)) {
            Ok((addr, n)) => Ok(
                (
                    PacketView {
                        assoc_id: from_be16(b[0], b[1]),
                        pkt_id: from_be16(b[2], b[3]),
                        frag_total: b[4],
                        frag_id: b[5],
                        size: from_be16(b[6], b[7]),
                        addr,
                    },
                    8 + n,
                ),
            ),
            Err(e) => Err(e),
        }
    }
}

impl Clone for Packet {
    fn clone(&self) -> (copy: Self)
        ensures
            copy@ == self@,
    {
        Packet {
            assoc_id: self.assoc_id,
            pkt_id: self.pkt_id,
            frag_total: self.frag_total,
            frag_id: self.frag_id,
            size: self.size,
            addr: self.addr.clone(),
        }
    }
}

impl Packet {
    /// A header with the given fields.
    pub fn new(
        assoc_id: u16,
        pkt_id: u16,
        frag_total: u8,
        frag_id: u8,
        size: u16,
        addr: Address,
    ) -> (pkt: Self)
        ensures
            pkt@ == (PacketView { assoc_id, pkt_id, frag_total, frag_id, size, addr: addr@ }),
    {
        Self { assoc_id, pkt_id, frag_total, frag_id, size, addr }
    }

    /// The association that the packet belongs to.
    pub fn assoc_id(&self) -> (id: u16)
        ensures
            id == self@.assoc_id,
    {
        self.assoc_id
    }

    /// The packet's number within its association.
    pub fn pkt_id(&self) -> (id: u16)
        ensures
            id == self@.pkt_id,
    {
        self.pkt_id
    }

    /// Into how many fragments the packet was split.
    pub fn frag_total(&self) -> (total: u8)
        ensures
            total == self@.frag_total,
    {
        self.frag_total
    }

    /// Which of those fragments this is, counted from zero.
    pub fn frag_id(&self) -> (id: u8)
        ensures
            id == self@.frag_id,
    {
        self.frag_id
    }

    /// The number of payload bytes that follow the header.
    pub fn size(&self) -> (size: u16)
        ensures
            size == self@.size,
    {
        self.size
    }

    /// The address that the fragment carries.
    pub fn addr(&self) -> (addr: &Address)
        ensures
            addr@ == self@.addr,
    {
        &self.addr
    }

    /// The command type code of a packet.
    pub fn type_code() -> (code: u8)
        ensures
            code == 0x02,
    {
        0x02
    }

    /// The length of the header on the wire.
    #[allow(clippy::len_without_is_empty)]
    pub fn len(&self) -> (n: usize)
        requires
            self@.wf(),
        ensures
            n == self@.wire().len(),
            n == 8 + self@.addr.wire_len(),
    {
        Self::len_without_addr() + self.addr.serialized_len()
    }

    /// The length of the header's fixed fields.
    pub fn len_without_addr() -> (n: usize)
        ensures
            n == 8,
    {
        2 + 2 + 1 + 1 + 2
    }

    /// Appends the wire form to `buf`.
    pub fn encode(&self, buf: &mut Vec<u8>)
        requires
            self@.wf(),
        ensures
            final(buf)@ == old(buf)@ + self@.wire(),
    {
        push_be16(buf, self.assoc_id);
        push_be16(buf, self.pkt_id);
        buf.push(self.frag_total);
        buf.push(self.frag_id);
        push_be16(buf, self.size);
        self.addr.encode(buf);
    }

    /// Decodes one header from the front of `bytes` and says how many bytes
    /// it took.
    pub fn decode(bytes: &[u8]) -> (r: Result<(Packet, usize), MarshalingError>)
        ensures
            match r {
                Ok((pkt, n)) => parse_packet(bytes@) == Ok::<_, MarshalingError>((pkt@, n as int)),
                Err(e) => parse_packet(bytes@) == Err::<(PacketView, int), _>(e),
            },
    {
        let len = bytes.len();
        if len < 8 {
            return Err(MarshalingError::Io(UnexpectedEof { needed: 8 - len }));
        }
        let tail = vstd::slice::slice_subrange(bytes, 8, len);
        match Address::decode(tail) {
            Ok((addr, n)) => Ok(
                (
                    Packet {
                        assoc_id: read_be16(bytes, 0),
                        pkt_id: read_be16(bytes, 2),
                        frag_total: bytes[4],
                        frag_id: bytes[5],
                        size: read_be16(bytes, 6),
                        addr,
                    },
                    8 + n,
                ),
            ),
            Err(e) => Err(e),
        }
    }
}

impl From<Packet> for (u16, u16, u8, u8, u16, Address) {
    /// The header's fields, in wire order.
    fn from(pkt: Packet) -> (parts: Self)
        ensures
            parts.0 == pkt@.assoc_id,
            parts.1 == pkt@.pkt_id,
            parts.2 == pkt@.frag_total,
            parts.3 == pkt@.frag_id,
            parts.4 == pkt@.size,
            parts.5@ == pkt@.addr,
    {
        (pkt.assoc_id, pkt.pkt_id, pkt.frag_total, pkt.frag_id, pkt.size, pkt.addr)
    }
}

impl vstd::std_specs::convert::FromSpecImpl<Packet> for (u16, u16, u8, u8, u16, Address) {
    open spec fn obeys_from_spec() -> bool {
        true
    }

    closed spec fn from_spec(pkt: Packet) -> Self {
        (pkt.assoc_id, pkt.pkt_id, pkt.frag_total, pkt.frag_id, pkt.size, pkt.addr)
    }
}

/// Every header that has a wire form is read back from it unchanged,
/// whatever follows it in the input.
pub proof fn packet_round_trip(p: PacketView, rest: Seq<u8>)
    requires
        p.wf(),
    ensures
        p.wire().len() == 8 + p.addr.wire_len(),
        parse_packet(p.wire() + rest) == Ok::<_, MarshalingError>((p, 8 + p.addr.wire_len())),
{
    let b = p.wire() + rest;
    crate::protocol::address::address_round_trip(p.addr, rest);
    assert(b.skip(8) =~= p.addr.wire() + rest);
}

/// What decoding accepts is canonical: the header read has a wire form,
/// and that form is the very bytes that were read, which lie within the
/// input.
pub proof fn packet_parse_is_canonical(b: Seq<u8>)
    ensures
        match parse_packet(b) {
            Ok((p, n)) => p.wf() && 9 <= n <= b.len() && p.wire() == b.subrange(0, n),
            Err(_) => true,
        },
{
    if b.len() >= 8 {
        crate::protocol::address::address_parse_is_canonical(b.skip(8));
        match parse_packet(b) {
            Ok((p, n)) => {
            },
            Err(_) => {},
        }
    }
}

} // verus!
