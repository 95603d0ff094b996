use tuic::protocol::address::Address;
use tuic::protocol::command::Command;
use tuic::protocol::error::{MarshalingError, ProtocolError, UnexpectedEof};
use tuic::protocol::packet::Packet;

fn round_trip(cmd: Command) {
    assert!(cmd.is_valid());
    let frame = cmd.encode();
    assert_eq!(frame.len(), cmd.serialized_len());
    let (back, taken) = Command::decode(&frame).unwrap();
    assert_eq!(taken, frame.len());
    assert_eq!(back, cmd);
}

#[test]
fn authenticate_round_trips() {
    let mut token = [0u8; 32];
    for (i, b) in token.iter_mut().enumerate() {
        *b = i as u8;
    }
    round_trip(Command::Authenticate(token));
}

#[test]
fn connect_round_trips_for_each_address_form() {
    round_trip(Command::Connect { addr: Address::Absent });
    round_trip(Command::Connect { addr: Address::DomainName("example.com".to_string(), 80) });
    round_trip(Command::Connect { addr: Address::Ipv4([1, 2, 3, 4], 53) });
    round_trip(Command::Connect { addr: Address::Ipv6([0, 1, 2, 3, 4, 5, 6, 7, 8, 9, 10, 11, 12, 13, 14, 15], 443) });
}

#[test]
fn packet_frame_has_the_documented_bytes() {
    let cmd = Command::Packet(Packet::new(7, 0x0102, 4, 1, 1000, Address::Ipv4([1, 2, 3, 4], 53)));
    let frame = cmd.encode();
    assert_eq!(
        frame,
        vec![0x05, 0x02, 0x00, 0x07, 0x01, 0x02, 0x04, 0x01, 0x03, 0xe8, 0x01, 1, 2, 3, 4, 0x00, 0x35]
    );
    round_trip(cmd);
}

#[test]
fn domain_name_serialized_len_counts_tag_length_name_and_port() {
    let addr = Address::DomainName("a.test".to_string(), 53);
    assert_eq!(addr.serialized_len(), 10);
    let mut buf = Vec::new();
    addr.encode(&mut buf);
    assert_eq!(buf, vec![0x00, 6, b'a', b'.', b't', b'e', b's', b't', 0x00, 0x35]);
}

#[test]
fn dissociate_and_heartbeat_round_trip() {
    round_trip(Command::Dissociate { assoc_id: 0xbeef });
    round_trip(Command::Heartbeat);
    assert_eq!(Command::Heartbeat.encode(), vec![0x05, 0x04]);
    assert_eq!(Command::Dissociate { assoc_id: 0xbeef }.encode(), vec![0x05, 0x03, 0xbe, 0xef]);
}

#[test]
fn unknown_version_is_refused() {
    assert_eq!(
        Command::decode(&[0x04, 0x04]),
        Err(MarshalingError::Protocol(ProtocolError::UnsupportedVersion(0x04)))
    );
}

#[test]
fn unknown_command_is_refused() {
    assert_eq!(
        Command::decode(&[0x05, 0x05]),
        Err(MarshalingError::Protocol(ProtocolError::UnsupportedCommand(0x05)))
    );
}

#[test]
fn unknown_address_type_is_refused() {
    assert_eq!(
        Command::decode(&[0x05, 0x01, 0x03, 0, 0]),
        Err(MarshalingError::Protocol(ProtocolError::InvalidAddressType(0x03)))
    );
}

#[test]
fn non_utf8_domain_name_is_invalid_encoding() {
    assert_eq!(Address::decode(&[0x00, 2, 0xff, 0xfe, 0x00, 0x50]), Err(MarshalingError::InvalidEncoding));
    assert_eq!(
        Command::decode(&[0x05, 0x01, 0x00, 2, 0xc3, 0x28, 0x00, 0x50]),
        Err(MarshalingError::InvalidEncoding)
    );
}

#[test]
fn short_input_says_how_much_is_missing() {
    assert_eq!(Command::decode(&[]), Err(MarshalingError::Io(UnexpectedEof { needed: 2 })));
    assert_eq!(Command::decode(&[0x05]), Err(MarshalingError::Io(UnexpectedEof { needed: 1 })));
    assert_eq!(Command::decode(&[0x05, 0x00, 1, 2]), Err(MarshalingError::Io(UnexpectedEof { needed: 30 })));
    assert_eq!(Command::decode(&[0x05, 0x03, 1]), Err(MarshalingError::Io(UnexpectedEof { needed: 1 })));
    assert_eq!(Command::decode(&[0x05, 0x02, 0, 7]), Err(MarshalingError::Io(UnexpectedEof { needed: 6 })));
    assert_eq!(Command::decode(&[0x05, 0x01]), Err(MarshalingError::Io(UnexpectedEof { needed: 1 })));
    assert_eq!(Command::decode(&[0x05, 0x01, 0x00, 5, b'a']), Err(MarshalingError::Io(UnexpectedEof { needed: 6 })));
    assert_eq!(Command::decode(&[0x05, 0x01, 0x01, 1, 2]), Err(MarshalingError::Io(UnexpectedEof { needed: 4 })));
    assert_eq!(Command::decode(&[0x05, 0x01, 0x02]), Err(MarshalingError::Io(UnexpectedEof { needed: 18 })));
}

#[test]
fn decode_leaves_the_payload_alone() {
    let cmd = Command::Packet(Packet::new(7, 0, 1, 0, 3, Address::DomainName("a.test".to_string(), 53)));
    let mut datagram = cmd.encode();
    let header_len = datagram.len();
    datagram.extend_from_slice(&[9, 8, 7]);
    let (back, taken) = Command::decode(&datagram).unwrap();
    assert_eq!(back, cmd);
    assert_eq!(taken, header_len);
    assert_eq!(&datagram[taken..], &[9, 8, 7]);
}

#[test]
fn over_long_domain_name_has_no_wire_form() {
    let addr = Address::DomainName("x".repeat(256), 1);
    assert!(!addr.is_valid());
    assert!(Address::DomainName("x".repeat(255), 1).is_valid());
}

#[test]
fn header_falls_into_its_fields() {
    let header = Packet::new(1, 2, 3, 4, 5, Address::Ipv4([6, 7, 8, 9], 10));
    assert_eq!(Packet::type_code(), 0x02);
    assert_eq!(Packet::len_without_addr(), 8);
    assert_eq!(header.len(), 15);
    let parts: (u16, u16, u8, u8, u16, Address) = header.into();
    assert_eq!(parts, (1, 2, 3, 4, 5, Address::Ipv4([6, 7, 8, 9], 10)));
}
