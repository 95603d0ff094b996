use tuic::client::link::{Link, LinkAction};
use tuic::common::heartbeat::{keeps_alive, Heartbeat};
use tuic::common::stream::StreamReg;
use tuic::protocol::error::{MarshalingError, ProtocolError, UnexpectedEof};
use tuic::common::packet::AssembleError;
use tuic::server::error::{Error, Severity, CODE_AUTH, CODE_PROTOCOL, CODE_RESOURCE, CODE_STREAM};
use tuic::server::udp_session::UdpSessionMap;

#[test]
fn registry_counts_handlers() {
    let mut reg = StreamReg::new();
    assert!(reg.is_drained());
    assert!(!reg.release());
    assert!(reg.register());
    assert!(reg.register());
    assert_eq!(reg.count(), 2);
    assert!(!reg.is_drained());
    assert!(reg.release());
    assert!(reg.release());
    assert!(reg.is_drained());
    assert!(!reg.release());
    assert_eq!(reg.count(), 0);
}

#[test]
fn heartbeat_falls_due_after_a_whole_interval_with_tasks_in_flight() {
    let mut hb = Heartbeat::new(3000, 1000);
    assert_eq!(hb.deadline(), 4000);
    assert!(!hb.poll(3999, 1));
    assert!(!hb.poll(4000, 0));
    assert!(hb.poll(4000, 1));
    assert_eq!(hb.deadline(), 7000);
    assert!(!hb.poll(5500, 2));
    assert!(hb.poll(7000, 2));
    assert!(!hb.poll(6000, 2));
    assert!(hb.poll(20_000, 1));
    assert_eq!(Heartbeat::new(10, u64::MAX - 3).deadline(), u64::MAX);
}

#[test]
fn heartbeats_polled_every_half_interval_are_at_most_one_and_a_half_apart() {
    let interval = 3000u64;
    for step in [1u64, 7, 999, 1499, 1500] {
        let mut hb = Heartbeat::new(interval, 0);
        let mut last = 0u64;
        let mut now = 0u64;
        let mut beats = 0;
        while now < 100_000 {
            now += step;
            if hb.poll(now, 1) {
                assert!(now - last >= interval);
                assert!(2 * (now - last) < 3 * interval);
                last = now;
                beats += 1;
            }
        }
        assert!(beats >= 100_000 / (interval + interval / 2) - 1);
    }
}

#[test]
fn link_authenticates_once_per_connection() {
    let token = [9u8; 32];
    let mut link = Link::new(token);
    assert!(!link.is_up());
    assert_eq!(link.request(), vec![LinkAction::Connect, LinkAction::Authenticate(token), LinkAction::Relay]);
    assert!(link.is_up());
    assert_eq!(link.request(), vec![LinkAction::Relay]);
    assert_eq!(link.request(), vec![LinkAction::Relay]);
    link.lost();
    assert!(!link.is_up());
    assert_eq!(link.request(), vec![LinkAction::Connect, LinkAction::Authenticate(token), LinkAction::Relay]);
}

#[test]
fn session_is_opened_on_the_first_packet_and_dropped_on_dissociate() {
    let mut sessions: UdpSessionMap<&'static str> = UdpSessionMap::new();
    assert!(sessions.is_drained());
    assert_eq!(sessions.send(7), None);
    assert_eq!(sessions.open(7, "socket a"), None);
    assert_eq!(sessions.send(7), Some(&"socket a"));
    assert_eq!(sessions.send(8), None);
    assert_eq!(sessions.open(8, "socket b"), None);
    assert_eq!(sessions.open(8, "socket c"), Some("socket b"));
    assert!(!sessions.is_drained());
    assert_eq!(sessions.dissociate(7), Some("socket a"));
    assert_eq!(sessions.dissociate(7), None);
    assert_eq!(sessions.send(7), None);
    assert_eq!(sessions.send(8), Some(&"socket c"));
    sessions.clear();
    assert!(sessions.is_drained());
    assert_eq!(sessions.send(8), None);
}

#[test]
fn errors_reach_as_far_as_they_must() {
    let version = Error::Marshaling(MarshalingError::Protocol(ProtocolError::UnsupportedVersion(4)));
    let command = Error::Marshaling(MarshalingError::Protocol(ProtocolError::UnsupportedCommand(9)));
    let short = Error::Marshaling(MarshalingError::Io(UnexpectedEof { needed: 1 }));
    for e in [Error::DuplicatedAuth, Error::AuthFailed, Error::ExportKeyingMaterial, Error::OversizedReassembly, version] {
        assert_eq!(e.severity(), Severity::FatalForConnection);
    }
    for e in [
        Error::UnexpectedCommand,
        Error::Marshaling(MarshalingError::InvalidEncoding),
        Error::Assemble(AssembleError::InvalidSize),
        Error::UnexpectedPacketSource,
        Error::Dissociated,
        Error::Backlog,
        Error::Closed,
        command,
        short,
    ] {
        assert_eq!(e.severity(), Severity::FatalForStream);
        assert_eq!(e.close_code(), Some(CODE_STREAM));
    }
    for e in [
        Error::Io,
        Error::Resolve,
        Error::UdpRelayIpv6Disabled,
        Error::PacketTooLarge,
        Error::Fragment(tuic::common::udp::FragmentError::TooManyFragments),
    ] {
        assert_eq!(e.severity(), Severity::Recoverable);
        assert_eq!(e.close_code(), None);
    }
    assert_eq!(Error::Connection.severity(), Severity::Transport);
    assert_eq!(Error::Connection.close_code(), None);
    assert_eq!(Error::AuthFailed.close_code(), Some(CODE_AUTH));
    assert_eq!(Error::DuplicatedAuth.close_code(), Some(CODE_AUTH));
    assert_eq!(Error::OversizedReassembly.close_code(), Some(CODE_RESOURCE));
    assert_eq!(version.close_code(), Some(CODE_PROTOCOL));
    assert_eq!(Error::AuthFailed.message(), "authentication failed");
    assert_eq!(version.message(), "unsupported protocol version");
}

#[test]
fn heartbeat_must_come_before_the_connection_is_idle() {
    assert!(keeps_alive(3_000, 15_000));
    assert!(keeps_alive(14_999, 15_000));
    assert!(!keeps_alive(15_000, 15_000));
    assert!(!keeps_alive(20_000, 15_000));
}

#[test]
fn timer_is_polled_at_least_every_half_interval() {
    let hb = Heartbeat::new(3000, 1000);
    assert_eq!(hb.wait(1000), 1500);
    assert_eq!(hb.wait(2400), 1500);
    assert_eq!(hb.wait(2600), 1400);
    assert_eq!(hb.wait(3999), 1);
    assert_eq!(hb.wait(4000), 1);
    assert_eq!(hb.wait(9000), 1);
    assert_eq!(Heartbeat::new(1, 0).wait(0), 1);
    assert_eq!(Heartbeat::new(0, 0).wait(0), 1);
    assert_eq!(Heartbeat::new(10, u64::MAX - 3).wait(u64::MAX - 3), 3);
}
