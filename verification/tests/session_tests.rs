//! The session machine driven through whole protocol exchanges, and
//! the relay machine through its wind-down.

use socks5_core::relay::{relay_step, Direction, Peer, RelayState};
use socks5_core::session::{Event, Failure, Next, Session, SessionState};
use socks5_core::wire::Address;

#[test]
fn new_session_asks_for_two_greeting_bytes() {
    let (s, first_read) = Session::new();
    assert_eq!(first_read, 2);
    assert_eq!(s.state(), SessionState::GreetingHead);
}

#[test]
fn greeting_with_no_auth_among_many_is_accepted() {
    let (mut s, _) = Session::new();
    let step = s.step(Event::Bytes(vec![0x05, 0x03]));
    assert!(step.reply.is_empty());
    assert_eq!(step.next, Next::Read(3));
    let step = s.step(Event::Bytes(vec![0x02, 0x01, 0x00]));
    assert_eq!(step.reply, vec![0x05, 0x00]);
    assert_eq!(step.next, Next::Read(4));
    assert_eq!(s.state(), SessionState::RequestHead);
}

#[test]
fn greeting_without_no_auth_is_rejected() {
    let (mut s, _) = Session::new();
    let step = s.step(Event::Bytes(vec![0x05, 0x02]));
    assert_eq!(step.next, Next::Read(2));
    let step = s.step(Event::Bytes(vec![0x01, 0x02]));
    assert_eq!(step.reply, vec![0x05, 0xFF]);
    assert_eq!(step.next, Next::Close(Failure::NoAcceptableMethod));
    assert_eq!(s.state(), SessionState::Failed);
}

#[test]
fn greeting_with_zero_methods_is_rejected() {
    let (mut s, _) = Session::new();
    let step = s.step(Event::Bytes(vec![0x05, 0x00]));
    assert_eq!(step.reply, vec![0x05, 0xFF]);
    assert_eq!(step.next, Next::Close(Failure::NoAcceptableMethod));
    assert_eq!(s.state(), SessionState::Failed);
}

#[test]
fn greeting_with_wrong_version_closes_silently() {
    let (mut s, _) = Session::new();
    let step = s.step(Event::Bytes(vec![0x04, 0x01]));
    assert!(step.reply.is_empty());
    assert_eq!(step.next, Next::Close(Failure::BadGreetingVersion));
}

fn session_past_handshake() -> Session {
    let (mut s, _) = Session::new();
    let step = s.step(Event::Bytes(vec![0x05, 0x01]));
    assert_eq!(step.next, Next::Read(1));
    let step = s.step(Event::Bytes(vec![0x00]));
    assert_eq!(step.reply, vec![0x05, 0x00]);
    assert_eq!(step.next, Next::Read(4));
    s
}

#[test]
fn ipv4_request_reads_exactly_six_body_bytes_then_dials() {
    let mut s = session_past_handshake();
    let step = s.step(Event::Bytes(vec![0x05, 0x01, 0x00, 0x01]));
    assert!(step.reply.is_empty());
    assert_eq!(step.next, Next::Read(6));
    let step = s.step(Event::Bytes(vec![127, 0, 0, 1, 0x1F, 0x90]));
    assert!(step.reply.is_empty());
    assert_eq!(
        step.next,
        Next::Dial(Address::Ipv4 { octets: [127, 0, 0, 1], port: 8080 })
    );
    assert_eq!(s.state(), SessionState::Dialing);
}

#[test]
fn domain_request_reads_length_then_name_and_port() {
    let mut s = session_past_handshake();
    let step = s.step(Event::Bytes(vec![0x05, 0x01, 0x00, 0x03]));
    assert_eq!(step.next, Next::Read(1));
    let step = s.step(Event::Bytes(vec![11]));
    assert_eq!(step.next, Next::Read(13));
    let mut body = b"example.com".to_vec();
    body.push(0x00);
    body.push(0x50);
    let step = s.step(Event::Bytes(body));
    assert_eq!(
        step.next,
        Next::Dial(Address::Domain { name: b"example.com".to_vec(), port: 80 })
    );
}

#[test]
fn domain_request_with_zero_length_fails_with_general_failure() {
    let mut s = session_past_handshake();
    let step = s.step(Event::Bytes(vec![0x05, 0x01, 0x00, 0x03]));
    assert_eq!(step.next, Next::Read(1));
    let step = s.step(Event::Bytes(vec![0]));
    assert_eq!(step.reply, vec![0x05, 0x01, 0x00, 0x01, 0, 0, 0, 0, 0, 0]);
    assert_eq!(step.next, Next::Close(Failure::EmptyDomainName));
}

#[test]
fn ipv6_request_reads_eighteen_body_bytes_then_dials() {
    let mut s = session_past_handshake();
    let step = s.step(Event::Bytes(vec![0x05, 0x01, 0x00, 0x04]));
    assert_eq!(step.next, Next::Read(18));
    let mut body = vec![0x20, 0x01, 0x0D, 0xB8];
    body.extend_from_slice(&[0; 12]);
    body.push(0x01);
    body.push(0xBB);
    let step = s.step(Event::Bytes(body));
    let mut octets = [0u8; 16];
    octets[0] = 0x20;
    octets[1] = 0x01;
    octets[2] = 0x0D;
    octets[3] = 0xB8;
    assert_eq!(step.next, Next::Dial(Address::Ipv6 { octets, port: 443 }));
}

#[test]
fn non_connect_command_is_rejected_without_dialing() {
    let mut s = session_past_handshake();
    let step = s.step(Event::Bytes(vec![0x05, 0x02, 0x00, 0x01]));
    assert_eq!(step.reply, vec![0x05, 0x07, 0x00, 0x01, 0, 0, 0, 0, 0, 0]);
    assert_eq!(step.next, Next::Close(Failure::CommandUnsupported));
    assert_eq!(s.state(), SessionState::Failed);

    let mut s = session_past_handshake();
    let step = s.step(Event::Bytes(vec![0x05, 0x03, 0x00, 0x01]));
    assert_eq!(step.reply[1], 0x07);
    assert_eq!(step.next, Next::Close(Failure::CommandUnsupported));
}

#[test]
fn unknown_address_type_is_rejected() {
    let mut s = session_past_handshake();
    let step = s.step(Event::Bytes(vec![0x05, 0x01, 0x00, 0x02]));
    assert_eq!(step.reply, vec![0x05, 0x08, 0x00, 0x01, 0, 0, 0, 0, 0, 0]);
    assert_eq!(step.next, Next::Close(Failure::AddressTypeUnsupported));
}

#[test]
fn request_with_wrong_version_closes_silently() {
    let mut s = session_past_handshake();
    let step = s.step(Event::Bytes(vec![0x04, 0x01, 0x00, 0x01]));
    assert!(step.reply.is_empty());
    assert_eq!(step.next, Next::Close(Failure::BadRequestVersion));
}

#[test]
fn connect_scenario_with_live_destination() {
    // Greeting 05 01 00, request 05 01 00 01 7F 00 00 01 1F 90.
    let (mut s, first_read) = Session::new();
    assert_eq!(first_read, 2);
    let step = s.step(Event::Bytes(vec![0x05, 0x01]));
    assert_eq!(step.next, Next::Read(1));
    let step = s.step(Event::Bytes(vec![0x00]));
    assert_eq!(step.reply, vec![0x05, 0x00]);
    assert_eq!(step.next, Next::Read(4));
    let step = s.step(Event::Bytes(vec![0x05, 0x01, 0x00, 0x01]));
    assert_eq!(step.next, Next::Read(6));
    let step = s.step(Event::Bytes(vec![0x7F, 0x00, 0x00, 0x01, 0x1F, 0x90]));
    assert_eq!(
        step.next,
        Next::Dial(Address::Ipv4 { octets: [127, 0, 0, 1], port: 8080 })
    );
    let step = s.step(Event::DialSucceeded);
    assert_eq!(step.reply, vec![0x05, 0x00, 0x00, 0x01, 0, 0, 0, 0, 0, 0]);
    assert_eq!(step.next, Next::Relay);
    assert_eq!(s.state(), SessionState::Relaying);
}

#[test]
fn connect_scenario_with_dead_destination() {
    let (mut s, _) = Session::new();
    s.step(Event::Bytes(vec![0x05, 0x01]));
    s.step(Event::Bytes(vec![0x00]));
    s.step(Event::Bytes(vec![0x05, 0x01, 0x00, 0x01]));
    s.step(Event::Bytes(vec![0x7F, 0x00, 0x00, 0x01, 0x1F, 0x90]));
    let step = s.step(Event::DialFailed);
    assert_eq!(step.reply, vec![0x05, 0x03, 0x00, 0x01, 0, 0, 0, 0, 0, 0]);
    assert_eq!(step.next, Next::Close(Failure::DialFailed));
    assert_eq!(s.state(), SessionState::Failed);
}

#[test]
fn relay_winds_down_with_half_close_propagation() {
    // The destination closes first: its reader stops, and the client
    // must see end-of-stream on its own socket.
    let (state, action) = relay_step(RelayState::Active, Direction::DestinationToClient);
    assert_eq!(state, RelayState::HalfClosed { stopped: Direction::DestinationToClient });
    assert_eq!(action.shutdown_write, Peer::Client);
    assert!(!action.close_both);

    // The client then closes too; both sockets are released.
    let (state, action) = relay_step(state, Direction::ClientToDestination);
    assert_eq!(state, RelayState::Closed);
    assert_eq!(action.shutdown_write, Peer::Destination);
    assert!(action.close_both);
}

#[test]
fn relay_winds_down_in_the_other_order() {
    let (state, action) = relay_step(RelayState::Active, Direction::ClientToDestination);
    assert_eq!(state, RelayState::HalfClosed { stopped: Direction::ClientToDestination });
    assert_eq!(action.shutdown_write, Peer::Destination);
    assert!(!action.close_both);

    let (state, action) = relay_step(state, Direction::DestinationToClient);
    assert_eq!(state, RelayState::Closed);
    assert_eq!(action.shutdown_write, Peer::Client);
    assert!(action.close_both);
}
