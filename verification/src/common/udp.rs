use vstd::prelude::*;
use crate::common::buf::{bytes_len, bytes_slice, contents};
use crate::protocol::address::{Address, AddressView};
use crate::protocol::packet::{Packet, PacketView};

verus! {

/// How UDP payloads travel through the tunnel.
#[derive(Clone, Copy, Debug, PartialEq, Eq, Structural)]
pub enum UdpRelayMode {
    /// Each fragment rides its own unidirectional stream.
    Native,
    /// Each fragment rides an unreliable datagram.
    Quic,
}

impl UdpRelayMode {
    /// The mode's name in configuration files.
    pub fn name(&self) -> (name: &'static str)
        ensures
            name@ == match *self {
                UdpRelayMode::Native => "native"@,
                UdpRelayMode::Quic => "quic"@,
            },
    {
        match self {
            UdpRelayMode::Native => "native",
            UdpRelayMode::Quic => "quic",
        }
    }
}

/// The length of a packet command frame that carries no address: version,
/// type code, the fixed fields of the header and the tag of the absent
/// address.
pub const HEADER_LEN: usize = 11;

/// The largest number of fragments that a header can count.
pub const MAX_FRAGMENTS: usize = 255;

/// The largest payload that a header can announce.
pub const MAX_FRAGMENT_SIZE: usize = 65535;

/// The payload `p` cut into fragments: the first takes up to `cap` bytes,
/// each later one up to `rest`. A payload that fits the first fragment
/// stays whole, the empty payload included.
pub open spec fn split(p: Seq<u8>, cap: int, rest: int) -> Seq<Seq<u8>>
    decreases p.len(),
{
    if p.len() <= cap || cap <= 0 {
        seq![p]
    } else {
        seq![p.take(cap)] + split(p.skip(cap), rest, rest)
    }
}

/// How many fragments a payload of `len` bytes needs.
pub open spec fn fragment_count(len: int, first: int, rest: int) -> int {
    if len <= first {
        1
    } else {
        1 + (len - first + rest - 1) / rest
    }
}

/// Room for payload in the first fragment of a datagram of at most `max`
/// bytes, whose header carries an address of `addr_len` bytes.
pub open spec fn first_capacity(max: int, addr_len: int) -> int {
    max - HEADER_LEN - addr_len
}

/// Room for payload in each later fragment.
pub open spec fn rest_capacity(max: int) -> int {
    max - HEADER_LEN
}

/// The headers that go with the fragments `frags` of one packet: all carry
/// the packet's identity and the fragment count, each its own index and
/// size, and only the first the address.
pub open spec fn headers(assoc_id: u16, pkt_id: u16, addr: AddressView, frags: Seq<Seq<u8>>) -> Seq<
    PacketView,
> {
    Seq::new(
        frags.len(),
        |i: int|
            PacketView {
                assoc_id,
                pkt_id,
                frag_total: frags.len() as u8,
                frag_id: i as u8,
                size: frags[i].len() as u16,
                addr: if i == 0 {
                    addr
                } else {
                    AddressView::Absent
                },
            },
    )
}

/// Gluing the fragments together gives the payload back.
pub proof fn split_flatten(p: Seq<u8>, cap: int, rest: int)
    requires
        rest >= 1,
    ensures
        split(p, cap, rest).flatten() == p,
    decreases p.len(),
{
    let s = split(p, cap, rest);
    if p.len() <= cap || cap <= 0 {
        assert(s.drop_first().flatten() =~= Seq::<u8>::empty());
    } else {
        split_flatten(p.skip(cap), rest, rest);
        assert(s.drop_first() =~= split(p.skip(cap), rest, rest));
    }
}

proof fn split_even_count(p: Seq<u8>, rest: int)
    requires
        rest >= 1,
        p.len() >= 1,
    ensures
        split(p, rest, rest).len() == (p.len() + rest - 1) / rest,
    decreases p.len(),
{
    let n = p.len() as int;
    if n <= rest {
        assert((n + rest - 1) / rest == 1) by (nonlinear_arith)
            requires
                1 <= n <= rest,
        ;
    } else {
        split_even_count(p.skip(rest), rest);
        assert((n + rest - 1) / rest == 1 + (n - rest + rest - 1) / rest) by (nonlinear_arith)
            requires
                rest >= 1,
        ;
    }
}

/// The number of fragments is the one that the closed formula gives.
pub proof fn split_count(p: Seq<u8>, first: int, rest: int)
    requires
        first >= 1,
        rest >= 1,
    ensures
        split(p, first, rest).len() == fragment_count(p.len() as int, first, rest),
        1 <= split(p, first, rest).len(),
        p.len() >= 1 ==> split(p, first, rest).len() <= p.len(),
{
    if p.len() > first {
        split_even_count(p.skip(first), rest);
        let m = p.len() - first;
        assert((m + rest - 1) / rest <= m) by (nonlinear_arith)
            requires
                m >= 1,
                rest >= 1,
        ;
    }
}

/// No fragment is larger than its room: the first holds at most `cap`
/// bytes and each later one at most `rest`; and none but the only fragment
/// of an empty payload is empty.
pub proof fn split_sizes(p: Seq<u8>, cap: int, rest: int, i: int)
    requires
        cap >= 1,
        rest >= 1,
        0 <= i < split(p, cap, rest).len(),
    ensures
        split(p, cap, rest)[i].len() <= if i == 0 {
            cap
        } else {
            rest
        },
        p.len() >= 1 ==> split(p, cap, rest)[i].len() >= 1,
    decreases p.len(),
{
    if p.len() > cap && i > 0 {
        split_sizes(p.skip(cap), rest, rest, i - 1);
    }
}

/// Cuts the payload `pkt`, bound for `addr`, into fragments that fit
/// datagrams of at most `max_datagram_len` bytes with their headers.
///
/// The datagram must have room for the header, the address and one byte of
/// payload.
pub fn split_packet(pkt: bytes::Bytes, addr: &Address, max_datagram_len: usize) -> (s: SplitPacket)
    requires
        addr@.wf(),
        max_datagram_len >= HEADER_LEN + addr@.wire_len() + 1,
    ensures
        s.wf(),
        s.emitted() == 0,
        s.fragments() == split(
            contents(pkt),
            first_capacity(max_datagram_len as int, addr@.wire_len()),
            rest_capacity(max_datagram_len as int),
        ),
{
    SplitPacket::new(pkt, addr, max_datagram_len)
}

/// The fragments of one payload, handed out one at a time.
#[derive(Debug)]
pub struct SplitPacket {
    pkt: bytes::Bytes,
    first_pkt_size: usize,
    max_pkt_size: usize,
    start: usize,
    end: usize,
    emitted: usize,
    len: usize,
}

impl SplitPacket {
    /// Every fragment of the payload, in order: those handed out and those
    /// still to come.
    pub closed spec fn fragments(&self) -> Seq<Seq<u8>> {
        split(contents(self.pkt), self.first_pkt_size as int, self.max_pkt_size as int)
    }

    /// How many fragments have been handed out.
    pub closed spec fn emitted(&self) -> nat {
        self.emitted as nat
    }

    spec fn room(&self) -> int {
        if self.emitted == 0 {
            self.first_pkt_size as int
        } else {
            self.max_pkt_size as int
        }
    }

    /// The splitter's invariant.
    pub closed spec fn wf(&self) -> bool {
        &&& self.first_pkt_size >= 1
        &&& self.max_pkt_size >= 1
        &&& self.len == self.fragments().len()
        &&& self.emitted <= self.len
        &&& self.start <= self.end <= contents(self.pkt).len()
        &&& self.emitted < self.len ==> {
            &&& self.fragments().skip(self.emitted as int) == split(
                contents(self.pkt).skip(self.start as int),
                self.room(),
                self.max_pkt_size as int,
            )
            &&& self.end - self.start == if contents(self.pkt).len() - self.start <= self.room() {
                contents(self.pkt).len() - self.start
            } else {
                self.room()
            }
        }
    }

    fn new(pkt: bytes::Bytes, addr: &Address, max_datagram_size: usize) -> (s: Self)
        requires
            addr@.wf(),
            max_datagram_size >= HEADER_LEN + addr@.wire_len() + 1,
        ensures
            s.wf(),
            s.emitted() == 0,
            s.fragments() == split(
                contents(pkt),
                first_capacity(max_datagram_size as int, addr@.wire_len()),
                rest_capacity(max_datagram_size as int),
            ),
    {
        let first_pkt_size = max_datagram_size - HEADER_LEN - addr.serialized_len();
        let max_pkt_size = max_datagram_size - HEADER_LEN;
        let size = bytes_len(&pkt);
        let len = if size > first_pkt_size {
            1 + (size - first_pkt_size - 1) / max_pkt_size + 1
        } else {
            1
        };
        let end = if size > first_pkt_size {
            first_pkt_size
        } else {
            size
        };
        proof {
            let p = contents(pkt);
            split_count(p, first_pkt_size as int, max_pkt_size as int);
            if size > first_pkt_size {
                let m = size - first_pkt_size;
                assert((m + max_pkt_size - 1) / (max_pkt_size as int) == (m - 1) / (
                max_pkt_size as int) + 1) by (nonlinear_arith)
                    requires
                        max_pkt_size >= 1,
                ;
            }
            assert(p.skip(0) =~= p);
            assert(split(p, first_pkt_size as int, max_pkt_size as int).skip(0) =~= split(
                p,
                first_pkt_size as int,
                max_pkt_size as int,
            ));
        }
        Self { pkt, first_pkt_size, max_pkt_size, start: 0, end, emitted: 0, len }
    }

    /// The next fragment, or nothing once all have been handed out.
    pub fn next(&mut self) -> (r: Option<bytes::Bytes>)
        requires
            old(self).wf(),
        ensures
            final(self).wf(),
            final(self).fragments() == old(self).fragments(),
            match r {
                Some(b) => {
                    &&& old(self).emitted() < old(self).fragments().len()
                    &&& contents(b) == old(self).fragments()[old(self).emitted() as int]
                    &&& final(self).emitted() == old(self).emitted() + 1
                },
                None => {
                    &&& old(self).emitted() == old(self).fragments().len()
                    &&& final(self).emitted() == old(self).emitted()
                },
            },
    {
        if self.emitted < self.len {
            let ghost p = contents(self.pkt);
            let ghost q = p.skip(self.start as int);
            let ghost cap = self.room();
            let ghost rest = self.max_pkt_size as int;
            let ghost all = self.fragments();
            let ghost tail = all.skip(self.emitted as int);
            let size = bytes_len(&self.pkt);
            let next = bytes_slice(&self.pkt, self.start, self.end);
            proof {
                assert(tail[0] == all[self.emitted as int]);
                if q.len() > cap {
                    assert(tail.skip(1) =~= split(q.skip(cap), rest, rest));
                    assert(q.skip(cap) =~= p.skip(self.end as int));
                    assert(all.skip(self.emitted + 1) =~= tail.skip(1));
                }
            }
            self.start = self.end;
            let left = size - self.start;
            self.end = if left <= self.max_pkt_size {
                size
            } else {
                self.start + self.max_pkt_size
            };
            self.emitted = self.emitted + 1;
            Some(next)
        } else {
            None
        }
    }

    /// The number of fragments that the payload was cut into.
    #[allow(clippy::len_without_is_empty)]
    pub fn len(&self) -> (n: usize)
        requires
            self.wf(),
        ensures
            n == self.fragments().len(),
            n >= 1,
    {
        self.len
    }

    /// The number of fragments still to come.
    pub fn remaining(&self) -> (n: usize)
        requires
            self.wf(),
        ensures
            n == self.fragments().len() - self.emitted(),
    {
        self.len - self.emitted
    }
}

/// Why a payload cannot be sent in fragments.
#[derive(Clone, Copy, Debug, PartialEq, Eq, Structural)]
pub enum FragmentError {
    /// The datagram has no room for the header, the address and one byte
    /// of payload.
    DatagramTooSmall,
    /// The payload needs more fragments than a header can count.
    TooManyFragments,
    /// A fragment would hold more bytes than a header can announce.
    FragmentTooLarge,
}

/// Whether `r` is what cutting the payload `p` gives, with headers, for
/// datagrams of at most `max` bytes: every fragment with its header in
/// order, or the one error that applies.
pub open spec fn fragmented(
    r: Result<Vec<(Packet, bytes::Bytes)>, FragmentError>,
    assoc_id: u16,
    pkt_id: u16,
    p: Seq<u8>,
    addr: AddressView,
    max: int,
) -> bool {
    let first = first_capacity(max, addr.wire_len());
    let frags = split(p, first, rest_capacity(max));
    let too_large = exists|i: int|
        0 <= i < frags.len() && (#[trigger] frags[i]).len() > MAX_FRAGMENT_SIZE;
    match r {
        Ok(out) => {
            &&& first >= 1
            &&& frags.len() <= MAX_FRAGMENTS
            &&& !too_large
            &&& out@.len() == frags.len()
            &&& forall|i: int|
                0 <= i < out@.len() ==> (#[trigger] out@[i]).0@ == headers(
                    assoc_id,
                    pkt_id,
                    addr,
                    frags,
                )[i] && contents(out@[i].1) == frags[i]
        },
        Err(FragmentError::DatagramTooSmall) => first < 1,
        Err(FragmentError::TooManyFragments) => first >= 1 && frags.len() > MAX_FRAGMENTS,
        Err(FragmentError::FragmentTooLarge) => first >= 1 && frags.len() <= MAX_FRAGMENTS
            && too_large,
    }
}

/// Cuts `pkt` as `split_packet` does and gives every fragment its header:
/// the packet's identity, the fragment count, the fragment's index and
/// size, and the address on the first fragment only.
pub fn fragment_packet(
    assoc_id: u16,
    pkt_id: u16,
    pkt: bytes::Bytes,
    addr: &Address,
    max_datagram_len: usize,
) -> (r: Result<Vec<(Packet, bytes::Bytes)>, FragmentError>)
    requires
        addr@.wf(),
    ensures
        fragmented(r, assoc_id, pkt_id, contents(pkt), addr@, max_datagram_len as int),
{
    if max_datagram_len < HEADER_LEN + 1 || max_datagram_len - HEADER_LEN - 1
        < addr.serialized_len() {
        return Err(FragmentError::DatagramTooSmall);
    }
    let mut parts = split_packet(pkt, addr, max_datagram_len);
    let total = parts.len();
    if total > MAX_FRAGMENTS {
        return Err(FragmentError::TooManyFragments);
    }
    let ghost frags = parts.fragments();
    let mut out: Vec<(Packet, bytes::Bytes)> = Vec::with_capacity(total);
    let mut i: usize = 0;
    while i < total
        invariant
            parts.wf(),
            parts.fragments() == frags,
            parts.emitted() == i,
            first_capacity(max_datagram_len as int, addr@.wire_len()) >= 1,
            frags == split(
                contents(pkt),
                first_capacity(max_datagram_len as int, addr@.wire_len()),
                rest_capacity(max_datagram_len as int),
            ),
            total == frags.len(),
            total <= MAX_FRAGMENTS,
            i <= total,
            addr@.wf(),
            out@.len() == i,
            forall|j: int| 0 <= j < i ==> (#[trigger] frags[j]).len() <= MAX_FRAGMENT_SIZE,
            forall|j: int|
                0 <= j < i ==> (#[trigger] out@[j]).0@ == headers(assoc_id, pkt_id, addr@, frags)[j]
                    && contents(out@[j].1) == frags[j],
        decreases total - i,
    {
        let part = match parts.next() {
            Some(part) => part,
            None => {
                assert(false);
                return Err(FragmentError::TooManyFragments);
            },
        };
        let size = bytes_len(&part);
        if size > MAX_FRAGMENT_SIZE {
            return Err(FragmentError::FragmentTooLarge);
        }
        let carried = if i == 0 {
            addr.clone()
        } else {
            Address::Absent
        };
        let header = Packet::new(assoc_id, pkt_id, total as u8, i as u8, size as u16, carried);
        out.push((header, part));
        i += 1;
    }
    Ok(out)
}

/// Hands out packet numbers for one association: each the successor of the
/// last, and zero again after 65535.
#[derive(Clone, Copy, Debug, PartialEq, Eq, Structural)]
pub struct PacketIdCounter {
    next: u16,
}

impl PacketIdCounter {
    /// The number that `allocate` gives next.
    pub closed spec fn upcoming(&self) -> u16 {
        self.next
    }

    /// A counter that starts at zero.
    pub fn new() -> (c: Self)
        ensures
            c.upcoming() == 0,
    {
        Self { next: 0 }
    }

    /// The next packet number.
    pub fn allocate(&mut self) -> (id: u16)
        ensures
            id == old(self).upcoming(),
            final(self).upcoming() == (old(self).upcoming() + 1) % 0x1_0000,
    {
        let id = self.next;
        self.next = if id == u16::MAX {
            0
        } else {
            id + 1
        };
        id
    }
}

/// Each fragment, framed with its header, fits a datagram of `max` bytes:
/// what `fragment_packet` hands out can be sent as it is.
pub proof fn fragments_fit_datagram(
    assoc_id: u16,
    pkt_id: u16,
    addr: AddressView,
    p: Seq<u8>,
    max: int,
    i: int,
)
    requires
        addr.wf(),
        max >= HEADER_LEN + addr.wire_len() + 1,
        0 <= i < split(p, first_capacity(max, addr.wire_len()), rest_capacity(max)).len(),
    ensures
        ({
            let frags = split(p, first_capacity(max, addr.wire_len()), rest_capacity(max));
            let header = headers(assoc_id, pkt_id, addr, frags)[i];
            crate::protocol::command::CommandView::Packet(header).wire().len() + frags[i].len()
                <= max
        }),
{
    let first = first_capacity(max, addr.wire_len());
    let rest = rest_capacity(max);
    split_sizes(p, first, rest, i);
}

} // verus!
