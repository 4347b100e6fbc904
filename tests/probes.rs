use std::io::ErrorKind;

use pingmore::address::{Family, IpAddress, SocketAddress};
use pingmore::deadline::{deadline_to_timeout, Moment, Span};
use pingmore::dispatch::{prepare, Kind, Rejection};
use pingmore::error::is_timeout;
use pingmore::outcome::{Failure, Outcome};
use pingmore::payload::UdpPayloadArgument;
use pingmore::session::{Action, Event, Probe, Session, Stage};
use pingmore::{icmp, tcp, udp};

const LOCAL_V4: IpAddress = IpAddress::V4(0x7f00_0001);
const LOCAL_V6: IpAddress = IpAddress::V6(1);

fn at(nanos: u64) -> Moment {
    Moment { nanos }
}

fn span(a: &Action) -> Option<Option<Span>> {
    match a {
        Action::Connect { timeout, .. } => Some(*timeout),
        Action::SetWriteTimeout(t) | Action::SetReadTimeout(t) => Some(*t),
        _ => None,
    }
}

/// Starts the session, then feeds it the events in order, one nanosecond apart.
fn drive(session: &mut Session, start: u64, events: Vec<Event>) -> Vec<Action> {
    let mut actions = vec![session.start(at(start))];
    let mut now = start;
    for e in events {
        now += 1;
        assert!(session.accepts(&e));
        actions.push(session.advance(e, at(now)));
    }
    actions
}

fn reply(first: u8) -> Event {
    Event::Received(vec![first, 0, 0, 0, 0, 0, 0, 0])
}

fn done4() -> Vec<Event> {
    vec![Event::Done, Event::Done, Event::Done, Event::Done]
}

fn with(mut events: Vec<Event>, last: Event) -> Vec<Event> {
    events.push(last);
    events
}

#[test]
fn deadline_none_means_no_timeout() {
    assert!(deadline_to_timeout(None, at(5)).is_none());
}

#[test]
fn deadline_in_future_leaves_the_difference() {
    assert_eq!(deadline_to_timeout(Some(at(1_500)), at(500)), Some(Span { nanos: 1_000 }));
}

#[test]
fn deadline_passed_gives_zero() {
    assert_eq!(deadline_to_timeout(Some(at(10)), at(11)), Some(Span { nanos: 0 }));
    assert_eq!(deadline_to_timeout(Some(at(10)), at(10)), Some(Span { nanos: 0 }));
    assert_eq!(deadline_to_timeout(Some(at(0)), at(u64::MAX)), Some(Span { nanos: 0 }));
}

#[test]
fn timeout_kinds() {
    assert!(is_timeout(&ErrorKind::WouldBlock));
    assert!(is_timeout(&ErrorKind::TimedOut));
    assert!(!is_timeout(&ErrorKind::ConnectionRefused));
    assert!(!is_timeout(&ErrorKind::PermissionDenied));
}

#[test]
fn outcome_from_error() {
    assert!(Outcome::from_error(ErrorKind::TimedOut).is_timeout());
    assert!(Outcome::from_error(ErrorKind::WouldBlock).is_timeout());
    assert!(matches!(
        Outcome::from_error(ErrorKind::ConnectionRefused),
        Outcome::Failed(Failure::Transport(ErrorKind::ConnectionRefused))
    ));
}

#[test]
fn icmp_type_codes_by_family() {
    assert_eq!(icmp::type_codes(Family::V4), (8, 0));
    assert_eq!(icmp::type_codes(Family::V6), (128, 129));
    assert_eq!(icmp::request(Family::V4), vec![8, 0, 0, 0, 0, 0, 0, 0]);
    assert_eq!(icmp::request(Family::V6), vec![128, 0, 0, 0, 0, 0, 0, 0]);
}

#[test]
fn icmp_session_v4_succeeds_on_echo_reply() {
    let mut s = icmp::echo(LOCAL_V4, Some(at(1_000)));
    let actions = drive(&mut s, 0, with(done4(), reply(0)));
    assert!(matches!(actions[0], Action::OpenIcmp(IpAddress::V4(0x7f00_0001))));
    assert!(matches!(actions[1], Action::SetWriteTimeout(Some(Span { nanos: 999 }))));
    assert!(matches!(actions[2], Action::Send));
    assert!(matches!(actions[3], Action::SetReadTimeout(Some(Span { nanos: 997 }))));
    assert!(matches!(actions[4], Action::ReceiveExact(8)));
    assert!(matches!(actions[5], Action::Finish(Outcome::Success)));
    assert_eq!(s.stage, Stage::Finished);
    assert_eq!(s.request(), vec![8, 0, 0, 0, 0, 0, 0, 0]);
}

#[test]
fn icmp_session_v6_succeeds_on_echo_reply() {
    let mut s = icmp::echo(LOCAL_V6, None);
    let actions = drive(&mut s, 0, with(done4(), reply(129)));
    assert!(matches!(actions[5], Action::Finish(Outcome::Success)));
    assert_eq!(s.request(), vec![128, 0, 0, 0, 0, 0, 0, 0]);
}

#[test]
fn icmp_wrong_type_is_an_error_not_a_timeout() {
    let mut s = icmp::echo(LOCAL_V4, Some(at(1_000)));
    let actions = drive(&mut s, 0, with(done4(), reply(8)));
    assert!(matches!(actions[5], Action::Finish(Outcome::Failed(Failure::UnexpectedType(8)))));
    let mut s = icmp::echo(LOCAL_V6, None);
    let actions = drive(&mut s, 0, with(done4(), reply(0)));
    assert!(matches!(actions[5], Action::Finish(Outcome::Failed(Failure::UnexpectedType(0)))));
}

#[test]
fn icmp_accepts_only_a_full_echo_message() {
    let mut s = icmp::echo(LOCAL_V4, None);
    drive(&mut s, 0, done4());
    assert_eq!(s.stage, Stage::Receiving);
    assert!(!s.accepts(&Event::Done));
    assert!(!s.accepts(&Event::Received(vec![0, 0])));
    assert!(s.accepts(&reply(0)));
    assert!(s.accepts(&Event::Failed(ErrorKind::TimedOut)));
}

#[test]
fn expired_deadline_times_out_without_waiting() {
    let mut s = icmp::echo(LOCAL_V4, Some(at(10)));
    let actions = drive(&mut s, 100, vec![Event::Done]);
    assert!(matches!(actions[0], Action::OpenIcmp(_)));
    assert!(matches!(actions[1], Action::Finish(Outcome::Timeout)));
    assert_eq!(s.stage, Stage::Finished);

    let mut s = udp::echo(SocketAddress { ip: LOCAL_V4, port: 7 }, &[0], Some(at(100)));
    let actions = drive(&mut s, 100, vec![Event::Done]);
    assert!(matches!(actions[1], Action::Finish(Outcome::Timeout)));

    let mut s = tcp::connect(SocketAddress { ip: LOCAL_V4, port: 1 }, Some(at(10)));
    let a = s.start(at(100));
    assert!(matches!(a, Action::Finish(Outcome::Timeout)));
    assert_eq!(s.stage, Stage::Finished);
}

#[test]
fn deadline_passing_between_steps_times_out_before_receive() {
    let mut s = udp::echo(SocketAddress { ip: LOCAL_V4, port: 7 }, &[0], Some(at(3)));
    let actions = drive(&mut s, 0, vec![Event::Done, Event::Done, Event::Done]);
    assert!(matches!(actions[1], Action::SetWriteTimeout(Some(Span { nanos: 2 }))));
    assert!(matches!(actions[3], Action::Finish(Outcome::Timeout)));
}

#[test]
fn timed_out_step_is_a_timeout() {
    let mut s = icmp::echo(LOCAL_V4, Some(at(1_000)));
    let actions = drive(&mut s, 0, with(done4(), Event::Failed(ErrorKind::WouldBlock)));
    assert!(matches!(actions[5], Action::Finish(Outcome::Timeout)));
}

#[test]
fn no_deadline_leaves_every_step_unbounded() {
    let mut s = udp::echo(SocketAddress { ip: LOCAL_V4, port: 7 }, &[1], None);
    let actions = drive(&mut s, 0, with(done4(), Event::Received(vec![9])));
    let mut bounded = 0;
    for a in &actions {
        if let Some(t) = span(a) {
            assert_eq!(t, None);
            bounded += 1;
        }
    }
    assert_eq!(bounded, 2);
    assert!(matches!(actions[5], Action::Finish(Outcome::Success)));
}

#[test]
fn tcp_session_succeeds_on_handshake() {
    let address = SocketAddress { ip: LOCAL_V6, port: 8080 };
    let mut s = tcp::connect(address, Some(at(50)));
    let actions = drive(&mut s, 20, vec![Event::Done]);
    assert!(matches!(
        actions[0],
        Action::Connect { address: SocketAddress { ip: IpAddress::V6(1), port: 8080 }, timeout: Some(Span { nanos: 30 }) }
    ));
    assert!(matches!(actions[1], Action::Finish(Outcome::Success)));
}

#[test]
fn tcp_refused_is_a_transport_error() {
    let mut s = tcp::connect(SocketAddress { ip: LOCAL_V4, port: 1 }, Some(at(50)));
    let actions = drive(&mut s, 0, vec![Event::Failed(ErrorKind::ConnectionRefused)]);
    assert!(matches!(
        actions[1],
        Action::Finish(Outcome::Failed(Failure::Transport(ErrorKind::ConnectionRefused)))
    ));
}

#[test]
fn udp_session_binds_unspecified_of_family() {
    let mut s = udp::echo(SocketAddress { ip: LOCAL_V6, port: 9 }, &[0], None);
    let a = s.start(at(0));
    assert!(matches!(
        a,
        Action::OpenUdp {
            local: SocketAddress { ip: IpAddress::V6(0), port: 0 },
            remote: SocketAddress { ip: IpAddress::V6(1), port: 9 }
        }
    ));
    assert_eq!(udp::bind_address(Family::V4), SocketAddress { ip: IpAddress::V4(0), port: 0 });
}

#[test]
fn udp_any_reply_succeeds() {
    let mut s = udp::echo(SocketAddress { ip: LOCAL_V4, port: 7 }, &[1, 2, 3], Some(at(100)));
    let actions = drive(&mut s, 0, with(done4(), Event::Received(vec![0xff])));
    assert!(matches!(actions[4], Action::ReceiveAny));
    assert!(matches!(actions[5], Action::Finish(Outcome::Success)));
    assert_eq!(s.request(), vec![1, 2, 3]);
}

#[test]
fn udp_refused_is_a_transport_error() {
    let mut s = udp::echo(SocketAddress { ip: LOCAL_V4, port: 1 }, &[0], Some(at(100)));
    let mut events = done4();
    events.push(Event::Failed(ErrorKind::ConnectionRefused));
    let actions = drive(&mut s, 0, events);
    assert!(matches!(
        actions[5],
        Action::Finish(Outcome::Failed(Failure::Transport(ErrorKind::ConnectionRefused)))
    ));
}

#[test]
fn dns_query_bytes() {
    assert_eq!(udp::dns_request(), vec![0, 0, 0, 0, 0, 1, 0, 0, 0, 0, 0, 0, 0, 0, 0, 0, 0]);
    assert_eq!(udp::dns_request().len(), 17);
}

#[test]
fn dns_behaves_as_udp_echo_of_the_query() {
    let address = SocketAddress { ip: LOCAL_V4, port: 53 };
    let mut d = udp::dns(address, Some(at(40)));
    let mut u = udp::echo(address, &udp::dns_request(), Some(at(40)));
    assert_eq!(d.request(), u.request());
    let da = drive(&mut d, 3, with(done4(), Event::Received(vec![1])));
    let ua = drive(&mut u, 3, with(done4(), Event::Received(vec![1])));
    assert_eq!(format!("{:?}", da), format!("{:?}", ua));
}

#[test]
fn repeated_probes_agree() {
    let address = SocketAddress { ip: LOCAL_V4, port: 80 };
    let mut first = tcp::connect(address, Some(at(1_000)));
    let mut second = tcp::connect(address, Some(at(1_000)));
    let a = drive(&mut first, 0, vec![Event::Done]);
    let b = drive(&mut second, 0, vec![Event::Done]);
    assert_eq!(format!("{:?}", a), format!("{:?}", b));
    assert!(matches!(b[1], Action::Finish(Outcome::Success)));
}

#[test]
fn failure_at_open_ends_the_session() {
    let mut s = icmp::echo(LOCAL_V4, None);
    let actions = drive(&mut s, 0, vec![Event::Failed(ErrorKind::PermissionDenied)]);
    assert!(matches!(
        actions[1],
        Action::Finish(Outcome::Failed(Failure::Transport(ErrorKind::PermissionDenied)))
    ));
    assert!(!s.accepts(&Event::Done));
}

#[test]
fn payload_empty_is_invalid_length() {
    assert!(matches!(UdpPayloadArgument::parse(""), Err(hex::FromHexError::InvalidStringLength)));
}

#[test]
fn payload_odd_length() {
    assert!(matches!(UdpPayloadArgument::parse("abc"), Err(hex::FromHexError::OddLength)));
}

#[test]
fn payload_invalid_character() {
    assert!(matches!(
        UdpPayloadArgument::parse("00g1"),
        Err(hex::FromHexError::InvalidHexCharacter { c: 'g', index: 2 })
    ));
}

#[test]
fn payload_decodes_hex() {
    assert_eq!(UdpPayloadArgument::parse("00ff7A").unwrap().0, vec![0x00, 0xff, 0x7a]);
    let p: UdpPayloadArgument = "0000000000010000000000000000000000".parse().unwrap();
    assert_eq!(p.0, udp::dns_request());
}

#[test]
fn prepare_rejections() {
    let p = || Some(UdpPayloadArgument(vec![1]));
    assert_eq!(prepare(Kind::Icmp, LOCAL_V4, Some(1), None, None).unwrap_err(), Rejection::IcmpPort);
    assert_eq!(prepare(Kind::Icmp, LOCAL_V4, None, p(), None).unwrap_err(), Rejection::IcmpPayload);
    assert_eq!(prepare(Kind::Tcp, LOCAL_V4, None, None, None).unwrap_err(), Rejection::TcpNeedsPort);
    assert_eq!(prepare(Kind::Tcp, LOCAL_V4, Some(80), p(), None).unwrap_err(), Rejection::TcpPayload);
    assert_eq!(prepare(Kind::Udp, LOCAL_V4, None, p(), None).unwrap_err(), Rejection::UdpNeedsPort);
}

#[test]
fn prepare_defaults() {
    let s = prepare(Kind::Dns, LOCAL_V4, None, None, Some(at(3))).unwrap();
    assert!(matches!(s.probe, Probe::Udp { address: SocketAddress { port: 53, .. }, .. }));
    assert_eq!(s.request(), udp::dns_request());
    assert_eq!(s.deadline, Some(at(3)));
    let s = prepare(Kind::Udp, LOCAL_V4, Some(9), None, None).unwrap();
    assert_eq!(s.request(), vec![0]);
    let s = prepare(Kind::Udp, LOCAL_V4, Some(9), Some(UdpPayloadArgument(vec![5, 6])), None).unwrap();
    assert_eq!(s.request(), vec![5, 6]);
    let s = prepare(Kind::Tcp, LOCAL_V6, Some(443), None, None).unwrap();
    assert!(matches!(s.probe, Probe::Tcp { address: SocketAddress { ip: IpAddress::V6(1), port: 443 } }));
    let s = prepare(Kind::Icmp, LOCAL_V6, None, None, None).unwrap();
    assert!(matches!(s.probe, Probe::Icmp { address: IpAddress::V6(1) }));
    assert_eq!(s.stage, Stage::Idle);
}
