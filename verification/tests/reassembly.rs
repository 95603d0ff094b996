use bytes::Bytes;
use tuic::common::packet::{AssembleError, PacketBuffer};
use tuic::common::udp::fragment_packet;
use tuic::protocol::address::Address;
use tuic::protocol::packet::Packet;

fn payload(len: usize) -> Vec<u8> {
    (0..len).map(|i| (i * 7 % 253) as u8).collect()
}

fn four_fragments() -> (Vec<u8>, Address, Vec<(Packet, Vec<u8>)>) {
    let addr = Address::DomainName("a.test".to_string(), 53);
    let pkt = payload(4000);
    let parts = fragment_packet(7, 0, Bytes::from(pkt.clone()), &addr, 1200)
        .unwrap()
        .into_iter()
        .map(|(h, b)| (h, b.to_vec()))
        .collect();
    (pkt, addr, parts)
}

#[test]
fn fragments_out_of_order_give_the_payload_once() {
    let (pkt, addr, parts) = four_fragments();
    let mut buf = PacketBuffer::new();
    let mut out = Vec::new();
    for (t, i) in [2usize, 0, 3, 1].into_iter().enumerate() {
        let done = buf.insert(&parts[i].0, parts[i].1.clone(), t as u64).unwrap();
        out.push(done);
    }
    assert_eq!(out[0], None);
    assert_eq!(out[1], None);
    assert_eq!(out[2], None);
    assert_eq!(out[3], Some((pkt, addr)));
    assert!(!buf.contains(7, 0));
    assert!(!buf.holds_assoc(7));
}

#[test]
fn fragments_in_order_give_the_payload() {
    let (pkt, addr, parts) = four_fragments();
    let mut buf = PacketBuffer::new();
    for (i, (header, body)) in parts.iter().enumerate() {
        let done = buf.insert(header, body.clone(), 0).unwrap();
        if i < 3 {
            assert_eq!(done, None);
            assert!(buf.contains(7, 0));
        } else {
            assert_eq!(done, Some((pkt.clone(), addr.clone())));
        }
    }
}

#[test]
fn a_repeated_fragment_counts_once() {
    let (pkt, addr, parts) = four_fragments();
    let mut buf = PacketBuffer::new();
    assert_eq!(buf.insert(&parts[1].0, parts[1].1.clone(), 1).unwrap(), None);
    assert_eq!(buf.insert(&parts[1].0, parts[1].1.clone(), 2).unwrap(), None);
    assert_eq!(buf.insert(&parts[0].0, parts[0].1.clone(), 3).unwrap(), None);
    assert_eq!(buf.insert(&parts[0].0, parts[0].1.clone(), 4).unwrap(), None);
    assert_eq!(buf.insert(&parts[2].0, parts[2].1.clone(), 5).unwrap(), None);
    assert_eq!(buf.insert(&parts[1].0, parts[1].1.clone(), 6).unwrap(), None);
    assert_eq!(buf.last_touched(7, 0), Some(6));
    assert_eq!(buf.insert(&parts[3].0, parts[3].1.clone(), 7).unwrap(), Some((pkt, addr)));
    assert_eq!(buf.last_touched(7, 0), None);
}

#[test]
fn the_later_copy_of_a_fragment_replaces_the_earlier() {
    let mut buf = PacketBuffer::new();
    let first = Packet::new(1, 1, 2, 0, 3, Address::Ipv4([9, 9, 9, 9], 9));
    let second = Packet::new(1, 1, 2, 1, 2, Address::Absent);
    assert_eq!(buf.insert(&first, vec![1, 1, 1], 0).unwrap(), None);
    let again = Packet::new(1, 1, 2, 0, 3, Address::Ipv4([8, 8, 8, 8], 8));
    assert_eq!(buf.insert(&again, vec![2, 2, 2], 0).unwrap(), None);
    assert_eq!(
        buf.insert(&second, vec![3, 3], 0).unwrap(),
        Some((vec![2, 2, 2, 3, 3], Address::Ipv4([8, 8, 8, 8], 8)))
    );
}

#[test]
fn a_single_fragment_is_a_whole_packet() {
    let mut buf = PacketBuffer::new();
    let header = Packet::new(3, 9, 1, 0, 4, Address::Ipv4([1, 2, 3, 4], 53));
    assert_eq!(
        buf.insert(&header, vec![1, 2, 3, 4], 0).unwrap(),
        Some((vec![1, 2, 3, 4], Address::Ipv4([1, 2, 3, 4], 53)))
    );
    assert!(!buf.contains(3, 9));
}

#[test]
fn packets_are_kept_apart() {
    let mut buf = PacketBuffer::new();
    let a0 = Packet::new(1, 1, 2, 0, 1, Address::Ipv4([1, 1, 1, 1], 1));
    let a1 = Packet::new(1, 1, 2, 1, 1, Address::Absent);
    let b0 = Packet::new(1, 2, 2, 0, 1, Address::Ipv4([2, 2, 2, 2], 2));
    let b1 = Packet::new(1, 2, 2, 1, 1, Address::Absent);
    let c1 = Packet::new(2, 1, 2, 1, 1, Address::Absent);
    assert_eq!(buf.insert(&a0, vec![10], 0).unwrap(), None);
    assert_eq!(buf.insert(&b1, vec![21], 0).unwrap(), None);
    assert_eq!(buf.insert(&c1, vec![31], 0).unwrap(), None);
    assert_eq!(buf.insert(&a1, vec![11], 0).unwrap(), Some((vec![10, 11], Address::Ipv4([1, 1, 1, 1], 1))));
    assert_eq!(buf.insert(&b0, vec![20], 0).unwrap(), Some((vec![20, 21], Address::Ipv4([2, 2, 2, 2], 2))));
    assert!(buf.contains(2, 1));
    assert!(!buf.contains(1, 1));
    assert!(!buf.contains(1, 2));
}

#[test]
fn fragment_index_must_be_below_the_count() {
    let mut buf = PacketBuffer::new();
    let bad = Packet::new(1, 1, 2, 2, 1, Address::Absent);
    assert_eq!(buf.insert(&bad, vec![0], 0), Err(AssembleError::InvalidFragmentId));
    let none = Packet::new(1, 1, 0, 0, 1, Address::Absent);
    assert_eq!(buf.insert(&none, vec![0], 0), Err(AssembleError::InvalidFragmentId));
    assert!(!buf.contains(1, 1));
}

#[test]
fn payload_must_be_as_long_as_announced() {
    let mut buf = PacketBuffer::new();
    let header = Packet::new(1, 1, 2, 0, 5, Address::Ipv4([1, 1, 1, 1], 1));
    assert_eq!(buf.insert(&header, vec![0; 4], 0), Err(AssembleError::InvalidSize));
    assert_eq!(buf.insert(&header, vec![0; 6], 0), Err(AssembleError::InvalidSize));
    assert!(!buf.contains(1, 1));
}

#[test]
fn only_the_first_fragment_may_carry_an_address() {
    let mut buf = PacketBuffer::new();
    let header = Packet::new(1, 1, 2, 1, 1, Address::Ipv4([1, 1, 1, 1], 1));
    assert_eq!(buf.insert(&header, vec![0], 0), Err(AssembleError::InvalidAddress));
}

#[test]
fn fragment_count_must_not_change() {
    let mut buf = PacketBuffer::new();
    let first = Packet::new(1, 1, 3, 0, 1, Address::Ipv4([1, 1, 1, 1], 1));
    let other = Packet::new(1, 1, 2, 1, 1, Address::Absent);
    assert_eq!(buf.insert(&first, vec![0], 0).unwrap(), None);
    assert_eq!(buf.insert(&other, vec![0], 0), Err(AssembleError::FragmentTotalMismatch));
    assert!(buf.contains(1, 1));
}

#[test]
fn dropping_an_association_drops_its_packets_only() {
    let (_, _, parts) = four_fragments();
    let mut buf = PacketBuffer::new();
    buf.insert(&parts[0].0, parts[0].1.clone(), 0).unwrap();
    buf.insert(&parts[1].0, parts[1].1.clone(), 0).unwrap();
    let other = Packet::new(8, 0, 2, 0, 1, Address::Ipv4([1, 1, 1, 1], 1));
    buf.insert(&other, vec![0], 0).unwrap();
    let same_assoc = Packet::new(7, 5, 2, 1, 1, Address::Absent);
    buf.insert(&same_assoc, vec![0], 0).unwrap();
    buf.drop_assoc(7);
    assert!(!buf.contains(7, 0));
    assert!(!buf.contains(7, 5));
    assert!(!buf.holds_assoc(7));
    assert!(buf.contains(8, 0));
    assert!(buf.holds_assoc(8));
}

#[test]
fn clearing_forgets_everything() {
    let (_, _, parts) = four_fragments();
    let mut buf = PacketBuffer::new();
    buf.insert(&parts[0].0, parts[0].1.clone(), 0).unwrap();
    buf.clear();
    assert!(!buf.contains(7, 0));
    assert!(!buf.holds_assoc(7));
}

#[test]
fn split_then_reassemble_restores_payload_and_address() {
    let addrs = [
        Address::Absent,
        Address::DomainName("example.com".to_string(), 443),
        Address::Ipv4([10, 0, 0, 1], 8080),
        Address::Ipv6([0xfe, 0x80, 0, 0, 0, 0, 0, 0, 0, 0, 0, 0, 0, 0, 0, 1], 53),
    ];
    for addr in addrs.iter() {
        for len in [0usize, 1, 17, 100, 1021, 5000] {
            for max in [11 + addr.serialized_len() + 1, 64, 1200] {
                let pkt = payload(len);
                let parts = match fragment_packet(3, 4, Bytes::from(pkt.clone()), addr, max) {
                    Ok(parts) => parts,
                    Err(_) => continue,
                };
                let mut buf = PacketBuffer::new();
                let n = parts.len();
                // the fragments arrive last to first
                for (k, (header, body)) in parts.iter().rev().enumerate() {
                    let done = buf.insert(header, body.to_vec(), 0).unwrap();
                    if k + 1 < n {
                        assert_eq!(done, None);
                    } else {
                        assert_eq!(done, Some((pkt.clone(), addr.clone())));
                    }
                }
                assert!(!buf.holds_assoc(3));
            }
        }
    }
}
