use bytes::Bytes;
use tuic::common::token::token_digest;
use tuic::common::incoming::{
    accept_from_bi_stream, accept_from_datagram, accept_from_uni_stream, IncomingError,
    RawIncomingTask,
};
use tuic::common::udp::{fragment_packet, UdpRelayMode};
use tuic::protocol::address::Address;
use tuic::protocol::command::Command;
use tuic::protocol::packet::Packet;
use tuic::common::token::tokens_match;
use tuic::server::connection::{Action, Connection, Drain, State};
use tuic::server::error::Error;

type Conn = Connection<u32>;

fn describe(actions: &[Action<u32>]) -> Vec<String> {
    actions
        .iter()
        .map(|a| match a {
            Action::Connect(addr, s) => format!("connect {:?} on {}", addr, s),
            Action::ReadPayload(h, s) => format!("read {} bytes of ({}, {}) #{} on {}", h.size(), h.assoc_id(), h.pkt_id(), h.frag_id(), s),
            Action::Forward { assoc_id, payload, addr, mode } => {
                format!("forward {} bytes of {} to {:?} as {}", payload.len(), assoc_id, addr, mode.name())
            }
            Action::Dissociate(id) => format!("dissociate {}", id),
            Action::Reject(e, s) => format!("reject {:?} {:?}", e, s),
            Action::Close(e) => format!("close {:?}", e),
        })
        .collect()
}

fn authenticated(token: [u8; 32]) -> Conn {
    let mut conn = Conn::new(token, 8, 65535, true);
    assert!(conn.handle(RawIncomingTask::Authenticate(token), 0).is_empty());
    assert_eq!(conn.state(), State::Authenticated);
    conn
}

#[test]
fn token_digest_is_blake3_of_the_token() {
    let digest = token_digest("hunter2");
    assert_eq!(&digest, blake3::hash(b"hunter2").as_bytes());
    assert_ne!(&digest[..7], b"hunter2");
    assert_ne!(token_digest("hunter2"), token_digest("hunter3"));
}

#[test]
fn authenticate_then_connect() {
    let token = token_digest("hunter2");
    let mut server = Conn::new(token, 8, 65535, true);
    assert_eq!(server.state(), State::Pending);

    let auth = Command::Authenticate(token).encode();
    let (cmd, _) = Command::decode(&auth).unwrap();
    let task = accept_from_uni_stream(cmd, 1u32).ok().unwrap();
    assert!(server.handle(task, 0).is_empty());
    assert_eq!(server.state(), State::Authenticated);

    let connect = Command::Connect { addr: Address::DomainName("example.com".to_string(), 80) }.encode();
    let (cmd, _) = Command::decode(&connect).unwrap();
    let task = accept_from_bi_stream(cmd, 2u32).ok().unwrap();
    let actions = server.handle(task, 1);
    assert_eq!(describe(&actions), vec!["connect DomainName(\"example.com\", 80) on 2"]);
}

#[test]
fn tasks_before_authentication_are_held_back_and_set_free_in_order() {
    let token = [7u8; 32];
    let mut conn = Conn::new(token, 8, 65535, true);
    let a = Address::Ipv4([1, 1, 1, 1], 1);
    let b = Address::Ipv4([2, 2, 2, 2], 2);
    assert!(conn.handle(RawIncomingTask::Connect(a, 10), 0).is_empty());
    let header = Packet::new(5, 0, 1, 0, 3, Address::Ipv4([9, 9, 9, 9], 9));
    let mut datagram = Command::Packet(header).encode();
    datagram.extend_from_slice(&[1, 2, 3]);
    let task = accept_from_datagram::<u32>(Bytes::from(datagram)).ok().unwrap();
    assert!(conn.handle(task, 0).is_empty());
    assert!(conn.handle(RawIncomingTask::Heartbeat, 0).is_empty());
    assert!(conn.handle(RawIncomingTask::Connect(b, 11), 0).is_empty());
    assert_eq!(conn.state(), State::Pending);

    let actions = conn.handle(RawIncomingTask::Authenticate(token), 1);
    assert_eq!(conn.state(), State::Authenticated);
    assert_eq!(
        describe(&actions),
        vec![
            "connect Ipv4([1, 1, 1, 1], 1) on 10",
            "forward 3 bytes of 5 to Ipv4([9, 9, 9, 9], 9) as quic",
            "connect Ipv4([2, 2, 2, 2], 2) on 11",
        ]
    );
}

#[test]
fn holding_area_is_bounded() {
    let mut conn = Conn::new([0u8; 32], 2, 65535, true);
    assert!(conn.handle(RawIncomingTask::Heartbeat, 0).is_empty());
    assert!(conn.handle(RawIncomingTask::Dissociate(1), 0).is_empty());
    let actions = conn.handle(RawIncomingTask::Connect(Address::Ipv4([1, 1, 1, 1], 1), 4), 0);
    assert_eq!(describe(&actions), vec!["reject Backlog Some(4)"]);
    assert_eq!(conn.state(), State::Pending);
}

#[test]
fn wrong_token_closes_the_connection() {
    let mut conn = Conn::new([1u8; 32], 8, 65535, true);
    assert!(conn.handle(RawIncomingTask::Connect(Address::Ipv4([1, 1, 1, 1], 1), 4), 0).is_empty());
    let mut wrong = [1u8; 32];
    wrong[31] = 2;
    let actions = conn.handle(RawIncomingTask::Authenticate(wrong), 0);
    assert_eq!(describe(&actions), vec!["close AuthFailed"]);
    assert_eq!(conn.state(), State::Closing);
    let later = conn.handle(RawIncomingTask::Authenticate([1u8; 32]), 0);
    assert_eq!(describe(&later), vec!["reject Closed None"]);
    assert_eq!(conn.state(), State::Closing);
}

#[test]
fn duplicate_authentication_is_fatal() {
    let token = [3u8; 32];
    let mut conn = authenticated(token);
    let actions = conn.handle(RawIncomingTask::Authenticate(token), 1);
    assert_eq!(describe(&actions), vec!["close DuplicatedAuth"]);
    assert_eq!(conn.state(), State::Closing);
    assert_eq!(Error::DuplicatedAuth.close_code(), Some(tuic::server::error::CODE_AUTH));
    let later = conn.handle(RawIncomingTask::Connect(Address::Ipv4([1, 1, 1, 1], 1), 4), 2);
    assert_eq!(describe(&later), vec!["reject Closed Some(4)"]);
    let header = Packet::new(5, 0, 1, 0, 1, Address::Ipv4([9, 9, 9, 9], 9));
    assert_eq!(describe(&conn.fragment(&header, vec![1], UdpRelayMode::Native, 3)), vec!["reject Closed None"]);
}

#[test]
fn authentication_timeout_closes_a_pending_connection_only() {
    let mut pending = Conn::new([0u8; 32], 8, 65535, true);
    assert_eq!(describe(&pending.auth_timeout()), vec!["close AuthFailed"]);
    assert_eq!(pending.state(), State::Closing);
    let mut up = authenticated([0u8; 32]);
    assert!(up.auth_timeout().is_empty());
    assert_eq!(up.state(), State::Authenticated);
}

#[test]
fn native_udp_single_fragment() {
    let mut conn = authenticated([0u8; 32]);
    let target = Address::Ipv4([1, 2, 3, 4], 53);
    let body: Vec<u8> = (0..1000).map(|i| i as u8).collect();
    let mut parts = fragment_packet(7, 0, Bytes::from(body.clone()), &target, 1500).unwrap();
    assert_eq!(parts.len(), 1);
    let (header, part) = parts.remove(0);
    let frame = Command::Packet(header).encode();
    let (cmd, _) = Command::decode(&frame).unwrap();
    let task = accept_from_uni_stream(cmd, 21u32).ok().unwrap();
    let actions = conn.handle(task, 5);
    assert_eq!(describe(&actions), vec!["read 1000 bytes of (7, 0) #0 on 21"]);
    let header = match actions.into_iter().next().unwrap() {
        Action::ReadPayload(header, _) => header,
        _ => unreachable!(),
    };
    let actions = conn.fragment(&header, part.to_vec(), UdpRelayMode::Native, 6);
    assert_eq!(describe(&actions), vec!["forward 1000 bytes of 7 to Ipv4([1, 2, 3, 4], 53) as native"]);
    match &actions[0] {
        Action::Forward { payload, .. } => assert_eq!(payload, &body),
        _ => unreachable!(),
    }
}

#[test]
fn quic_udp_in_four_datagrams() {
    let mut conn = authenticated([0u8; 32]);
    let target = Address::DomainName("a.test".to_string(), 53);
    let body: Vec<u8> = (0..4000).map(|i| (i % 199) as u8).collect();
    let parts = fragment_packet(7, 3, Bytes::from(body.clone()), &target, 1200).unwrap();
    let mut datagrams = Vec::new();
    for (header, part) in parts {
        let mut datagram = Command::Packet(header).encode();
        datagram.extend_from_slice(&part);
        assert!(datagram.len() <= 1200);
        datagrams.push(Bytes::from(datagram));
    }
    assert_eq!(datagrams.len(), 4);
    let mut seen = Vec::new();
    for i in [2usize, 0, 3, 1] {
        let task = accept_from_datagram::<u32>(datagrams[i].clone()).ok().unwrap();
        seen.push(conn.handle(task, i as u64));
    }
    assert!(seen[0].is_empty() && seen[1].is_empty() && seen[2].is_empty());
    assert_eq!(describe(&seen[3]), vec!["forward 4000 bytes of 7 to DomainName(\"a.test\", 53) as quic"]);
    match &seen[3][0] {
        Action::Forward { payload, .. } => assert_eq!(payload, &body),
        _ => unreachable!(),
    }
    assert!(!conn.holds_fragments_of(7));
}

#[test]
fn dissociate_then_late_fragment() {
    let mut conn = authenticated([0u8; 32]);
    let f0 = Packet::new(7, 0, 3, 0, 1, Address::Ipv4([1, 2, 3, 4], 53));
    let f1 = Packet::new(7, 0, 3, 1, 1, Address::Absent);
    let f2 = Packet::new(7, 0, 3, 2, 1, Address::Absent);
    assert!(conn.fragment(&f0, vec![0], UdpRelayMode::Native, 0).is_empty());
    assert!(conn.fragment(&f1, vec![1], UdpRelayMode::Native, 1).is_empty());
    assert!(conn.holds_fragments_of(7));
    assert!(!conn.is_dissociated(7));

    let actions = conn.handle(RawIncomingTask::Dissociate(7), 2);
    assert_eq!(describe(&actions), vec!["dissociate 7"]);
    assert!(conn.is_dissociated(7));
    assert!(!conn.holds_fragments_of(7));

    let late = conn.fragment(&f2, vec![2], UdpRelayMode::Native, 3);
    assert_eq!(describe(&late), vec!["reject Dissociated None"]);
    assert!(!conn.holds_fragments_of(7));

    let late = conn.handle(RawIncomingTask::PacketFromUniStream(f2, 33), 4);
    assert_eq!(describe(&late), vec!["reject Dissociated Some(33)"]);
    let whole = Packet::new(7, 1, 1, 0, 1, Address::Ipv4([1, 2, 3, 4], 53));
    let mut datagram = Command::Packet(whole).encode();
    datagram.push(9);
    let task = accept_from_datagram::<u32>(Bytes::from(datagram)).ok().unwrap();
    assert_eq!(describe(&conn.handle(task, 5)), vec!["reject Dissociated None"]);

    let other = Packet::new(8, 0, 1, 0, 1, Address::Ipv4([1, 2, 3, 4], 53));
    assert_eq!(
        describe(&conn.fragment(&other, vec![1], UdpRelayMode::Quic, 6)),
        vec!["forward 1 bytes of 8 to Ipv4([1, 2, 3, 4], 53) as quic"]
    );
}

#[test]
fn malformed_fragment_is_given_up() {
    let mut conn = authenticated([0u8; 32]);
    let bad = Packet::new(7, 0, 2, 2, 1, Address::Absent);
    assert_eq!(
        describe(&conn.fragment(&bad, vec![0], UdpRelayMode::Native, 0)),
        vec!["reject Assemble(InvalidFragmentId) None"]
    );
    assert_eq!(conn.state(), State::Authenticated);
}

#[test]
fn heartbeat_asks_for_nothing() {
    let mut conn = authenticated([0u8; 32]);
    assert!(conn.handle(RawIncomingTask::Heartbeat, 0).is_empty());
    assert_eq!(conn.state(), State::Authenticated);
}

#[test]
fn closing_ends_once_streams_and_sessions_are_gone() {
    let mut conn = authenticated([0u8; 32]);
    let f0 = Packet::new(7, 0, 3, 0, 1, Address::Ipv4([1, 2, 3, 4], 53));
    assert!(conn.fragment(&f0, vec![0], UdpRelayMode::Native, 0).is_empty());
    assert_eq!(conn.finish(0, true, 0, 100), Drain::Open);
    assert_eq!(conn.state(), State::Authenticated);
    conn.close();
    assert_eq!(conn.state(), State::Closing);
    assert!(!conn.holds_fragments_of(7));
    assert_eq!(conn.finish(2, true, 0, 100), Drain::Waiting);
    assert_eq!(conn.finish(0, false, 99, 100), Drain::Waiting);
    assert_eq!(conn.finish(1, true, 100, 100), Drain::Forced);
    assert_eq!(conn.finish(0, false, 250, 100), Drain::Forced);
    assert_eq!(conn.state(), State::Closing);
    assert_eq!(conn.finish(0, true, 250, 100), Drain::Closed);
    assert_eq!(conn.state(), State::Closed);
    conn.close();
    assert_eq!(conn.state(), State::Closed);
    assert_eq!(conn.finish(3, false, 0, 100), Drain::Closed);
    assert_eq!(describe(&conn.handle(RawIncomingTask::Heartbeat, 9)), vec!["reject Closed None"]);
    let mut pending = Conn::new([0u8; 32], 8, 65535, true);
    assert_eq!(pending.finish(0, true, 0, 0), Drain::Open);
}

#[test]
fn reassembly_beyond_what_the_relay_carries_closes_the_connection() {
    let mut conn = Conn::new([0u8; 32], 8, 4, true);
    assert!(conn.handle(RawIncomingTask::Authenticate([0u8; 32]), 0).is_empty());
    let g0 = Packet::new(7, 1, 2, 0, 3, Address::Ipv4([1, 2, 3, 4], 53));
    let g1 = Packet::new(7, 1, 2, 1, 1, Address::Absent);
    assert!(conn.fragment(&g0, vec![0, 1, 2], UdpRelayMode::Native, 0).is_empty());
    assert_eq!(
        describe(&conn.fragment(&g1, vec![3], UdpRelayMode::Native, 0)),
        vec!["forward 4 bytes of 7 to Ipv4([1, 2, 3, 4], 53) as native"]
    );
    let f0 = Packet::new(7, 0, 3, 0, 3, Address::Ipv4([1, 2, 3, 4], 53));
    let f1 = Packet::new(7, 0, 3, 1, 2, Address::Absent);
    assert!(conn.fragment(&f0, vec![0, 1, 2], UdpRelayMode::Native, 0).is_empty());
    assert_eq!(
        describe(&conn.fragment(&f1, vec![3, 4], UdpRelayMode::Native, 0)),
        vec!["close OversizedReassembly"]
    );
    assert_eq!(conn.state(), State::Closing);
    assert!(!conn.holds_fragments_of(7));
    assert_eq!(Error::OversizedReassembly.close_code(), Some(tuic::server::error::CODE_RESOURCE));

    let mut conn = Conn::new([0u8; 32], 8, 4, true);
    assert!(conn.handle(RawIncomingTask::Authenticate([0u8; 32]), 0).is_empty());
    let whole = Packet::new(7, 0, 1, 0, 5, Address::Ipv4([1, 2, 3, 4], 53));
    assert_eq!(
        describe(&conn.fragment(&whole, vec![0; 5], UdpRelayMode::Quic, 0)),
        vec!["close OversizedReassembly"]
    );
    assert_eq!(conn.state(), State::Closing);
}

#[test]
fn ipv6_targets_are_served_only_where_allowed() {
    let target = Address::Ipv6([0, 0, 0, 0, 0, 0, 0, 0, 0, 0, 0, 0, 0, 0, 0, 1], 53);
    let header = Packet::new(7, 0, 1, 0, 1, target.clone());
    let mut strict = Conn::new([0u8; 32], 8, 1500, false);
    assert!(strict.handle(RawIncomingTask::Authenticate([0u8; 32]), 0).is_empty());
    assert_eq!(
        describe(&strict.fragment(&header, vec![1], UdpRelayMode::Native, 0)),
        vec!["reject UdpRelayIpv6Disabled None"]
    );
    assert_eq!(strict.state(), State::Authenticated);
    let v4 = Packet::new(7, 1, 1, 0, 1, Address::Ipv4([1, 2, 3, 4], 53));
    assert_eq!(
        describe(&strict.fragment(&v4, vec![1], UdpRelayMode::Native, 0)),
        vec!["forward 1 bytes of 7 to Ipv4([1, 2, 3, 4], 53) as native"]
    );
    let mut open = Conn::new([0u8; 32], 8, 1500, true);
    assert!(open.handle(RawIncomingTask::Authenticate([0u8; 32]), 0).is_empty());
    assert_eq!(describe(&open.fragment(&header, vec![1], UdpRelayMode::Native, 0)).len(), 1);
    assert!(describe(&open.fragment(&header, vec![1], UdpRelayMode::Native, 0))[0].starts_with("forward 1 bytes of 7 to Ipv6"));
}

#[test]
fn replies_go_back_in_the_mode_of_the_last_fragment_with_fresh_numbers() {
    let from = Address::Ipv4([1, 2, 3, 4], 53);
    let mut conn = authenticated([0u8; 32]);
    // an association that has sent nothing is answered over streams
    let (mode, parts) = conn.reply(9, Bytes::from(vec![1, 2, 3]), &from, Some(1200)).unwrap();
    assert_eq!(mode, UdpRelayMode::Native);
    assert_eq!(parts.len(), 1);
    assert_eq!((parts[0].0.assoc_id(), parts[0].0.pkt_id(), parts[0].0.frag_total()), (9, 0, 1));
    assert_eq!(parts[0].0.addr(), &from);
    assert_eq!(&parts[0].1[..], &[1, 2, 3]);

    let sent = Packet::new(9, 40, 1, 0, 1, Address::Ipv4([9, 9, 9, 9], 9));
    assert_eq!(conn.fragment(&sent, vec![0], UdpRelayMode::Quic, 0).len(), 1);
    let body: Vec<u8> = (0..3000).map(|i| i as u8).collect();
    let (mode, parts) = conn.reply(9, Bytes::from(body.clone()), &from, Some(1200)).unwrap();
    assert_eq!(mode, UdpRelayMode::Quic);
    assert_eq!(parts.len(), 3);
    let mut glued = Vec::new();
    for (i, (header, part)) in parts.iter().enumerate() {
        assert_eq!((header.assoc_id(), header.pkt_id(), header.frag_id() as usize), (9, 1, i));
        glued.extend_from_slice(part);
    }
    assert_eq!(glued, body);

    // the mode follows the last fragment, and the numbers go on
    let again = Packet::new(9, 41, 1, 0, 1, Address::Ipv4([9, 9, 9, 9], 9));
    assert_eq!(conn.fragment(&again, vec![0], UdpRelayMode::Native, 0).len(), 1);
    let (mode, parts) = conn.reply(9, Bytes::from(body), &from, Some(1200)).unwrap();
    assert_eq!(mode, UdpRelayMode::Native);
    assert_eq!(parts.len(), 1);
    assert_eq!(parts[0].0.pkt_id(), 2);
    // another association counts for itself
    let (_, parts) = conn.reply(10, Bytes::from(vec![1]), &from, None).unwrap();
    assert_eq!(parts[0].0.pkt_id(), 0);
}

#[test]
fn replies_that_cannot_go_back_are_given_up() {
    let from = Address::Ipv4([1, 2, 3, 4], 53);
    let mut pending = Conn::new([0u8; 32], 8, 1500, true);
    assert_eq!(pending.reply(1, Bytes::from(vec![1]), &from, Some(1200)).err(), Some(Error::Closed));

    let mut conn = Conn::new([0u8; 32], 8, 1500, true);
    assert!(conn.handle(RawIncomingTask::Authenticate([0u8; 32]), 0).is_empty());
    assert_eq!(
        conn.reply(1, Bytes::from(vec![0; 1501]), &from, Some(1200)).err(),
        Some(Error::PacketTooLarge)
    );
    assert!(conn.reply(1, Bytes::from(vec![0; 1500]), &from, Some(1200)).is_ok());
    assert_eq!(Error::PacketTooLarge.close_code(), None);

    // in datagrams, the transport must take datagrams that have room
    let sent = Packet::new(2, 0, 1, 0, 1, Address::Ipv4([9, 9, 9, 9], 9));
    assert_eq!(conn.fragment(&sent, vec![0], UdpRelayMode::Quic, 0).len(), 1);
    assert_eq!(
        conn.reply(2, Bytes::from(vec![1]), &from, None).err(),
        Some(Error::Fragment(tuic::common::udp::FragmentError::DatagramTooSmall))
    );
    assert_eq!(
        conn.reply(2, Bytes::from(vec![1]), &from, Some(18)).err(),
        Some(Error::Fragment(tuic::common::udp::FragmentError::DatagramTooSmall))
    );
    let (_, parts) = conn.reply(2, Bytes::from(vec![1]), &from, Some(19)).unwrap();
    assert_eq!(parts[0].0.pkt_id(), 2);

    assert_eq!(conn.handle(RawIncomingTask::Dissociate(2), 0).len(), 1);
    assert_eq!(conn.reply(2, Bytes::from(vec![1]), &from, Some(1200)).err(), Some(Error::Dissociated));
    conn.close();
    assert_eq!(conn.reply(1, Bytes::from(vec![1]), &from, Some(1200)).err(), Some(Error::Closed));
}

#[test]
fn tokens_match_only_when_every_byte_does() {
    let a = [5u8; 32];
    let mut b = a;
    assert!(tokens_match(&a, &b));
    b[0] = 4;
    assert!(!tokens_match(&a, &b));
    b = a;
    b[31] = 6;
    assert!(!tokens_match(&a, &b));
    b = a;
    b[17] ^= 0x80;
    assert!(!tokens_match(&a, &b));
}

#[test]
fn bi_stream_carries_connect_only() {
    let ok = accept_from_bi_stream(Command::Connect { addr: Address::Ipv4([1, 1, 1, 1], 1) }, 1u32);
    assert!(matches!(ok, Ok(RawIncomingTask::Connect(Address::Ipv4([1, 1, 1, 1], 1), 1))));
    for cmd in [
        Command::Authenticate([0; 32]),
        Command::Packet(Packet::new(1, 1, 1, 0, 0, Address::Absent)),
        Command::Dissociate { assoc_id: 1 },
        Command::Heartbeat,
    ] {
        let expected = cmd.clone();
        match accept_from_bi_stream(cmd, 5u32) {
            Err(IncomingError::UnexpectedCommandFromBiStream(stream, back)) => {
                assert_eq!(stream, 5);
                assert_eq!(back, expected);
            }
            _ => panic!("a bidirectional stream took {:?}", expected),
        }
    }
}

#[test]
fn uni_stream_carries_everything_but_connect() {
    assert!(matches!(
        accept_from_uni_stream(Command::Authenticate([4; 32]), 1u32),
        Ok(RawIncomingTask::Authenticate(t)) if t == [4; 32]
    ));
    assert!(matches!(
        accept_from_uni_stream(Command::Dissociate { assoc_id: 9 }, 1u32),
        Ok(RawIncomingTask::Dissociate(9))
    ));
    assert!(matches!(accept_from_uni_stream(Command::Heartbeat, 1u32), Ok(RawIncomingTask::Heartbeat)));
    let header = Packet::new(1, 2, 3, 0, 4, Address::Ipv4([1, 1, 1, 1], 1));
    match accept_from_uni_stream(Command::Packet(header.clone()), 8u32) {
        Ok(RawIncomingTask::PacketFromUniStream(back, stream)) => {
            assert_eq!(back, header);
            assert_eq!(stream, 8);
        }
        _ => panic!("the packet was not taken"),
    }
    match accept_from_uni_stream(Command::Connect { addr: Address::Absent }, 8u32) {
        Err(IncomingError::UnexpectedCommandFromUniStream(stream, back)) => {
            assert_eq!(stream, 8);
            assert_eq!(back, Command::Connect { addr: Address::Absent });
        }
        _ => panic!("a unidirectional stream took a connect"),
    }
}

#[test]
fn datagram_carries_packets_only() {
    let header = Packet::new(1, 2, 1, 0, 3, Address::Ipv4([1, 1, 1, 1], 1));
    let mut datagram = Command::Packet(header.clone()).encode();
    datagram.extend_from_slice(&[7, 8, 9]);
    match accept_from_datagram::<u32>(Bytes::from(datagram)) {
        Ok(RawIncomingTask::PacketFromDatagram(back, payload)) => {
            assert_eq!(back, header);
            assert_eq!(&payload[..], &[7, 8, 9]);
        }
        _ => panic!("the packet was not taken"),
    }
    let heartbeat = Bytes::from(Command::Heartbeat.encode());
    match accept_from_datagram::<u32>(heartbeat.clone()) {
        Err(IncomingError::UnexpectedCommandFromDatagram(back, cmd)) => {
            assert_eq!(back, heartbeat);
            assert_eq!(cmd, Command::Heartbeat);
        }
        _ => panic!("a datagram took a heartbeat"),
    }
    assert!(matches!(
        accept_from_datagram::<u32>(Bytes::from(vec![0x05, 0x02, 0, 1])),
        Err(IncomingError::Io(eof)) if eof.needed == 6
    ));
    assert!(matches!(
        accept_from_datagram::<u32>(Bytes::from(vec![0x06, 0x02])),
        Err(IncomingError::Protocol(tuic::protocol::error::ProtocolError::UnsupportedVersion(6)))
    ));
    assert!(matches!(
        accept_from_datagram::<u32>(Bytes::from(vec![0x05, 0x01, 0x00, 1, 0xff, 0, 80])),
        Err(IncomingError::InvalidEncoding)
    ));
}
