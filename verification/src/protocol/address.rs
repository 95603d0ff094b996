use vstd::prelude::*;
use vstd::slice::{slice_subrange, slice_to_vec};
use vstd::string::StringSliceAdditionalSpecFns;
use vstd::utf8::{decode_utf8, encode_utf8, valid_utf8};
use crate::protocol::error::{short_by, MarshalingError, ProtocolError, UnexpectedEof};
use crate::protocol::wire::{be16, from_be16, push_all, push_be16, read_be16};

verus! {

/// Tag of a domain name.
pub const TYPE_DOMAIN: u8 = 0x00;

/// Tag of an IPv4 socket address.
pub const TYPE_IPV4: u8 = 0x01;

/// Tag of an IPv6 socket address.
pub const TYPE_IPV6: u8 = 0x02;

/// Tag of the absent address.
pub const TYPE_NONE: u8 = 0xff;

/// Where a relayed connection or datagram is headed, or came from.
#[derive(Debug, PartialEq, Eq)]
pub enum Address {
    /// No address: what every fragment but the first carries.
    Absent,
    /// A host name and a port.
    DomainName(String, u16),
    /// An IPv4 address, in network order, and a port.
    Ipv4([u8; 4], u16),
    /// An IPv6 address, in network order, and a port.
    Ipv6([u8; 16], u16),
}

/// What an `Address` stands for.
pub enum AddressView {
    Absent,
    DomainName(Seq<char>, u16),
    Ipv4(Seq<u8>, u16),
    Ipv6(Seq<u8>, u16),
}

impl View for Address {
    type V = AddressView;

    open spec fn view(&self) -> AddressView {
        match *self {
            Address::Absent => AddressView::Absent,
            Address::DomainName(name, port) => AddressView::DomainName(name@, port),
            Address::Ipv4(ip, port) => AddressView::Ipv4(ip@, port),
            Address::Ipv6(ip, port) => AddressView::Ipv6(ip@, port),
        }
    }
}

impl Clone for Address {
    fn clone(&self) -> (copy: Self)
        ensures
            copy@ == self@,
    {
        match self {
            Address::Absent => Address::Absent,
            Address::DomainName(name, port) => Address::DomainName(name.clone(), *port),
            Address::Ipv4(ip, port) => Address::Ipv4(*ip, *port),
            Address::Ipv6(ip, port) => Address::Ipv6(*ip, *port),
        }
    }
}

impl AddressView {
    /// Whether the address has a wire form: a domain name must fit the
    /// one-byte length that precedes it, an IP address has its fixed width.
    pub open spec fn wf(self) -> bool {
        match self {
            AddressView::Absent => true,
            AddressView::DomainName(name, _) => encode_utf8(name).len() <= 255,
            AddressView::Ipv4(ip, _) => ip.len() == 4,
            AddressView::Ipv6(ip, _) => ip.len() == 16,
        }
    }

    /// The wire form: the tag, then the body.
    pub open spec fn wire(self) -> Seq<u8> {
        match self {
            AddressView::Absent => seq![TYPE_NONE],
            AddressView::DomainName(name, port) => seq![
                TYPE_DOMAIN,
                encode_utf8(name).len() as u8,
            ] + encode_utf8(name) + be16(port),
            AddressView::Ipv4(ip, port) => seq![TYPE_IPV4] + ip + be16(port),
            AddressView::Ipv6(ip, port) => seq![TYPE_IPV6] + ip + be16(port),
        }
    }

    /// The length of the wire form.
    pub open spec fn wire_len(self) -> int {
        match self {
            AddressView::Absent => 1,
            AddressView::DomainName(name, _) => 4 + encode_utf8(name).len() as int,
            AddressView::Ipv4(_, _) => 7,
            AddressView::Ipv6(_, _) => 19,
        }
    }
}

/// What decoding an address from the front of `b` gives: the address and the
/// number of bytes it took, or the reason why there is none.
pub open spec fn parse_address(b: Seq<u8>) -> Result<(AddressView, int), MarshalingError> {
    if b.len() < 1 {
        Err(short_by(1))
    } else if b[0] == TYPE_NONE {
        Ok((AddressView::Absent, 1))
    } else if b[0] == TYPE_DOMAIN {
        if b.len() < 2 {
            Err(short_by(1))
        } else {
            let n = b[1] as int;
            if b.len() < 4 + n {
                Err(short_by(4 + n - b.len()))
            } else if !valid_utf8(b.subrange(2, 2 + n)) {
                Err(MarshalingError::InvalidEncoding)
            } else {
                Ok(
                    (
                        AddressView::DomainName(
                            decode_utf8(b.subrange(2, 2 + n)),
                            from_be16(b[2 + n], b[3 + n]),
                        ),
                        4 + n,
                    ),
                )
            }
        }
    } else if b[0] == TYPE_IPV4 {
        if b.len() < 7 {
            Err(short_by(7 - b.len()))
        } else {
            Ok((AddressView::Ipv4(b.subrange(1, 5), from_be16(b[5], b[6])), 7))
        }
    } else if b[0] == TYPE_IPV6 {
        if b.len() < 19 {
            Err(short_by(19 - b.len()))
        } else {
            Ok((AddressView::Ipv6(b.subrange(1, 17), from_be16(b[17], b[18])), 19))
        }
    } else {
        Err(MarshalingError::Protocol(ProtocolError::InvalidAddressType(b[0])))
    }
}

/// `String::from_utf8`: the string whose bytes are `bytes`, if they are
/// valid UTF-8, and nothing otherwise.
#[verifier::external_body]
fn string_from_utf8(bytes: Vec<u8>) -> (r: Option<String>)
    ensures
        match r {
            Some(s) => valid_utf8(bytes@) && encode_utf8(s@) == bytes@,
            None => !valid_utf8(bytes@),
        },
{
    String::from_utf8(bytes).ok()
}

impl Address {
    /// Whether the address has a wire form.
    pub fn is_valid(&self) -> (valid: bool)
        ensures
            valid == self@.wf(),
    {
        match self {
            Address::DomainName(name, _) => name.as_str().as_bytes().len() <= 255,
            _ => true,
        }
    }

    /// Whether this is an IPv6 address.
    pub fn is_ipv6(&self) -> (v6: bool)
        ensures
            v6 == (self@ is Ipv6),
    {
        match self {
            Address::Ipv6(_, _) => true,
            _ => false,
        }
    }

    /// Whether this is the absent address.
    pub fn is_absent(&self) -> (absent: bool)
        ensures
            absent == (self@ == AddressView::Absent),
    {
        match self {
            Address::Absent => true,
            _ => false,
        }
    }

    /// The number of bytes that `encode` writes.
    pub fn serialized_len(&self) -> (n: usize)
        requires
            self@.wf(),
        ensures
            n == self@.wire().len(),
            n == self@.wire_len(),
            1 <= n <= 259,
    {
        match self {
            Address::Absent => 1,
            Address::DomainName(name, _) => 4 + name.as_str().as_bytes().len(),
            Address::Ipv4(_, _) => 7,
            Address::Ipv6(_, _) => 19,
        }
    }

    /// Appends the wire form to `buf`.
    pub fn encode(&self, buf: &mut Vec<u8>)
        requires
            self@.wf(),
        ensures
            final(buf)@ == old(buf)@ + self@.wire(),
    {
        match self {
            Address::Absent => {
                buf.push(TYPE_NONE);
            },
            Address::DomainName(name, port) => {
                let raw = name.as_str().as_bytes();
                buf.push(TYPE_DOMAIN);
                buf.push(raw.len() as u8);
                push_all(buf, raw);
                push_be16(buf, *port);
            },
            Address::Ipv4(ip, port) => {
                buf.push(TYPE_IPV4);
                push_all(buf, ip.as_slice());
                push_be16(buf, *port);
            },
            Address::Ipv6(ip, port) => {
                buf.push(TYPE_IPV6);
                push_all(buf, ip.as_slice());
                push_be16(buf, *port);
            },
        }
    }

    /// Decodes one address from the front of `bytes` and says how many bytes
    /// it took.
    pub fn decode(bytes: &[u8]) -> (r: Result<(Address, usize), MarshalingError>)
        ensures
            match r {
                Ok((addr, n)) => parse_address(bytes@) == Ok::<_, MarshalingError>(
                    (addr@, n as int),
                ),
                Err(e) => parse_address(bytes@) == Err::<(AddressView, int), _>(e),
            },
    {
        let len = bytes.len();
        if len < 1 {
            return Err(MarshalingError::Io(UnexpectedEof { needed: 1 }));
        }
        let tag = bytes[0];
        if tag == TYPE_NONE {
            Ok((Address::Absent, 1))
        } else if tag == TYPE_DOMAIN {
            if len < 2 {
                return Err(MarshalingError::Io(UnexpectedEof { needed: 1 }));
            }
            let n = bytes[1] as usize;
            if len < 4 + n {
                return Err(MarshalingError::Io(UnexpectedEof { needed: 4 + n - len }));
            }
            let raw = slice_to_vec(slice_subrange(bytes, 2, 2 + n));
            match string_from_utf8(raw) {
                Some(name) => {
                    proof {
                        vstd::utf8::encode_utf8_decode_utf8(name@);
                    }
                    Ok((Address::DomainName(name, read_be16(bytes, 2 + n)), 4 + n))
                },
                None => Err(MarshalingError::InvalidEncoding),
            }
        } else if tag == TYPE_IPV4 {
            if len < 7 {
                return Err(MarshalingError::Io(UnexpectedEof { needed: 7 - len }));
            }
            let mut ip = [0u8;4];
            let mut i: usize = 0;
            while i < 4
                invariant
                    i <= 4,
                    bytes@.len() >= 7,
                    forall|j: int| 0 <= j < i ==> ip@[j] == bytes@[1 + j],
                decreases 4 - i,
            {
                ip[i] = bytes[1 + i];
                i += 1;
            }
            assert(ip@ =~= bytes@.subrange(1, 5));
            Ok((Address::Ipv4(ip, read_be16(bytes, 5)), 7))
        } else if tag == TYPE_IPV6 {
            if len < 19 {
                return Err(MarshalingError::Io(UnexpectedEof { needed: 19 - len }));
            }
            let mut ip = [0u8;16];
            let mut i: usize = 0;
            while i < 16
                invariant
                    i <= 16,
                    bytes@.len() >= 19,
                    forall|j: int| 0 <= j < i ==> ip@[j] == bytes@[1 + j],
                decreases 16 - i,
            {
                ip[i] = bytes[1 + i];
                i += 1;
            }
            assert(ip@ =~= bytes@.subrange(1, 17));
            Ok((Address::Ipv6(ip, read_be16(bytes, 17)), 19))
        } else {
            Err(MarshalingError::Protocol(ProtocolError::InvalidAddressType(tag)))
        }
    }
}

/// Every address that has a wire form is read back from it unchanged,
/// whatever follows it in the input, and the number of bytes taken is the
/// length of that form.
pub proof fn address_round_trip(a: AddressView, rest: Seq<u8>)
    requires
        a.wf(),
    ensures
        a.wire().len() == a.wire_len(),
        parse_address(a.wire() + rest) == Ok::<_, MarshalingError>((a, a.wire_len())),
{
    let b = a.wire() + rest;
    match a {
        AddressView::Absent => {},
        AddressView::DomainName(name, port) => {
            let raw = encode_utf8(name);
            assert(b.subrange(2, 2 + raw.len() as int) =~= raw);
            vstd::utf8::encode_utf8_valid_utf8(name);
            vstd::utf8::encode_utf8_decode_utf8(name);
        },
        AddressView::Ipv4(ip, port) => {
            assert(b.subrange(1, 5) =~= ip);
        },
        AddressView::Ipv6(ip, port) => {
            assert(b.subrange(1, 17) =~= ip);
        },
    }
}

/// A domain name whose bytes are not valid UTF-8 is refused as
/// `InvalidEncoding`, once it has arrived in full.
pub proof fn address_rejects_invalid_utf8(b: Seq<u8>)
    requires
        b.len() >= 2,
        b[0] == TYPE_DOMAIN,
        b.len() >= 4 + b[1],
        !valid_utf8(b.subrange(2, 2 + b[1])),
    ensures
        parse_address(b) == Err::<(AddressView, int), _>(MarshalingError::InvalidEncoding),
{
}

/// What decoding accepts is canonical: the address read has a wire form,
/// and that form is the very bytes that were read.
pub proof fn address_parse_is_canonical(b: Seq<u8>)
    ensures
        match parse_address(b) {
            Ok((a, n)) => a.wf() && 1 <= n <= b.len() && a.wire() == b.subrange(0, n),
            Err(_) => true,
        },
{
    match parse_address(b) {
        Ok((a, n)) => {
            match a {
                AddressView::Absent => {},
                AddressView::DomainName(name, port) => {
                    let k = b[1] as int;
                    vstd::utf8::decode_utf8_encode_utf8(b.subrange(2, 2 + k));
                },
                AddressView::Ipv4(ip, port) => {
                },
                AddressView::Ipv6(ip, port) => {
                },
            }
        },
        Err(_) => {},
    }
}

} // verus!
