use bytes::Bytes;
use tuic::common::udp::{
    fragment_packet, split_packet, FragmentError, PacketIdCounter, UdpRelayMode, HEADER_LEN,
};
use tuic::protocol::address::Address;
use tuic::protocol::command::Command;

fn payload(len: usize) -> Vec<u8> {
    (0..len).map(|i| (i % 251) as u8).collect()
}

fn sizes(pkt: &[u8], addr: &Address, max: usize) -> Vec<usize> {
    let mut parts = split_packet(Bytes::from(pkt.to_vec()), addr, max);
    let announced = parts.len();
    let mut out = Vec::new();
    let mut glued = Vec::new();
    while let Some(part) = parts.next() {
        glued.extend_from_slice(&part);
        out.push(part.len());
    }
    assert_eq!(out.len(), announced);
    assert_eq!(glued, pkt);
    assert!(parts.next().is_none());
    assert_eq!(parts.remaining(), 0);
    out
}

#[test]
fn header_len_is_the_frame_of_a_packet_without_address() {
    let bare = Command::Packet(tuic::protocol::packet::Packet::new(0, 0, 0, 0, 0, Address::Absent));
    assert_eq!(bare.serialized_len(), HEADER_LEN);
    assert_eq!(HEADER_LEN, 11);
}

#[test]
fn payload_that_fits_the_first_fragment_stays_whole() {
    let addr = Address::Ipv4([1, 2, 3, 4], 53);
    assert_eq!(sizes(&payload(1000), &addr, 1500), vec![1000]);
    assert_eq!(sizes(&payload(1482), &addr, 1500), vec![1482]);
    assert_eq!(sizes(&payload(1483), &addr, 1500), vec![1482, 1]);
}

#[test]
fn empty_payload_is_one_empty_fragment() {
    assert_eq!(sizes(&[], &Address::Absent, 100), vec![0]);
}

#[test]
fn four_thousand_bytes_in_datagrams_of_1200_make_four_fragments() {
    let addr = Address::DomainName("a.test".to_string(), 53);
    assert_eq!(addr.serialized_len(), 10);
    assert_eq!(sizes(&payload(4000), &addr, 1200), vec![1179, 1189, 1189, 443]);
}

#[test]
fn later_fragments_have_more_room_than_the_first() {
    let addr = Address::Ipv6([0; 16], 1);
    assert_eq!(sizes(&payload(10), &addr, HEADER_LEN + 19 + 1), vec![1, 9]);
    assert_eq!(sizes(&payload(41), &addr, HEADER_LEN + 19 + 1), vec![1, 20, 20]);
    assert_eq!(sizes(&payload(42), &addr, HEADER_LEN + 19 + 1), vec![1, 20, 20, 1]);
}

#[test]
fn fragments_carry_their_headers() {
    let addr = Address::DomainName("a.test".to_string(), 53);
    let pkt = payload(4000);
    let out = fragment_packet(7, 42, Bytes::from(pkt.clone()), &addr, 1200).unwrap();
    assert_eq!(out.len(), 4);
    let mut total = 0usize;
    let mut glued = Vec::new();
    for (i, (header, part)) in out.iter().enumerate() {
        assert_eq!(header.assoc_id(), 7);
        assert_eq!(header.pkt_id(), 42);
        assert_eq!(header.frag_total(), 4);
        assert_eq!(header.frag_id() as usize, i);
        assert_eq!(header.size() as usize, part.len());
        if i == 0 {
            assert_eq!(header.addr(), &addr);
        } else {
            assert_eq!(header.addr(), &Address::Absent);
        }
        let frame = Command::Packet(header.clone()).encode();
        assert!(frame.len() + part.len() <= 1200);
        total += header.size() as usize;
        glued.extend_from_slice(part);
    }
    assert_eq!(total, 4000);
    assert_eq!(glued, pkt);
}

#[test]
fn single_fragment_header_for_a_thousand_bytes() {
    let addr = Address::Ipv4([1, 2, 3, 4], 53);
    let out = fragment_packet(7, 0, Bytes::from(payload(1000)), &addr, 1500).unwrap();
    assert_eq!(out.len(), 1);
    let (header, part) = &out[0];
    assert_eq!(
        (header.assoc_id(), header.pkt_id(), header.frag_total(), header.frag_id(), header.size()),
        (7, 0, 1, 0, 1000)
    );
    assert_eq!(header.addr(), &addr);
    assert_eq!(part.len(), 1000);
}

#[test]
fn datagram_without_room_is_refused() {
    let addr = Address::Ipv4([1, 2, 3, 4], 53);
    assert_eq!(
        fragment_packet(1, 1, Bytes::from(payload(5)), &addr, HEADER_LEN + 7).err(),
        Some(FragmentError::DatagramTooSmall)
    );
    assert_eq!(
        fragment_packet(1, 1, Bytes::from(payload(5)), &addr, 0).err(),
        Some(FragmentError::DatagramTooSmall)
    );
    assert!(fragment_packet(1, 1, Bytes::from(payload(5)), &addr, HEADER_LEN + 8).is_ok());
}

#[test]
fn more_than_255_fragments_are_refused() {
    let addr = Address::Absent;
    let max = HEADER_LEN + 2;
    // room: 1 byte in the first fragment, 2 in each later one
    assert_eq!(fragment_packet(1, 1, Bytes::from(payload(1 + 2 * 254)), &addr, max).unwrap().len(), 255);
    assert_eq!(
        fragment_packet(1, 1, Bytes::from(payload(2 + 2 * 254)), &addr, max).err(),
        Some(FragmentError::TooManyFragments)
    );
}

#[test]
fn fragment_beyond_what_a_header_announces_is_refused() {
    let addr = Address::Absent;
    assert_eq!(
        fragment_packet(1, 1, Bytes::from(vec![0u8; 65536]), &addr, 100_000).err(),
        Some(FragmentError::FragmentTooLarge)
    );
    assert!(fragment_packet(1, 1, Bytes::from(vec![0u8; 65535]), &addr, 100_000).is_ok());
}

#[test]
fn packet_numbers_count_up_and_wrap() {
    let mut ids = PacketIdCounter::new();
    assert_eq!(ids.allocate(), 0);
    assert_eq!(ids.allocate(), 1);
    for _ in 2..65535u32 {
        ids.allocate();
    }
    assert_eq!(ids.allocate(), 65535);
    assert_eq!(ids.allocate(), 0);
}

#[test]
fn relay_modes_have_their_names() {
    assert_eq!(UdpRelayMode::Native.name(), "native");
    assert_eq!(UdpRelayMode::Quic.name(), "quic");
}
