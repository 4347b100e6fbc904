use vstd::prelude::*;
use crate::address::{unspecified_of, Family, SocketAddress};
use crate::deadline::Moment;
use crate::session::{Probe, Session, Stage};

verus! {

/// The port of the DNS service.
pub const DNS_PORT: u16 = 53;

/// A minimal DNS query: a header with identifier 0, flags 0 (a standard query),
/// one question and no other records, followed by five zero bytes.
pub open spec fn dns_query() -> Seq<u8> {
    seq![0u8, 0u8, 0u8, 0u8, 0u8, 1u8, 0u8, 0u8, 0u8, 0u8, 0u8, 0u8, 0u8, 0u8, 0u8, 0u8, 0u8]
}

/// The local address a UDP probe binds: unspecified, of the target's family,
/// with a port that the system picks.
pub fn bind_address(family: Family) -> (r: SocketAddress)
    ensures
        r == (SocketAddress { ip: unspecified_of(family), port: 0 }),
{
    SocketAddress { ip: family.unspecified(), port: 0 }
}

/// A session that sends `data` to `address` and succeeds on any datagram that
/// comes back, waiting at most until `deadline` at each step.
pub fn echo(address: SocketAddress, data: &[u8], deadline: Option<Moment>) -> (r: Session)
    requires
        data@.len() > 0,
    ensures
        r.probe matches Probe::Udp { address: a, payload } && a == address && payload@ == data@,
        r.deadline == deadline,
        r.stage == Stage::Idle,
{
    let payload = vstd::slice::slice_to_vec(data);
    Session { probe: Probe::Udp { address, payload }, deadline, stage: Stage::Idle }
}

/// Builds the minimal DNS query.
pub fn dns_request() -> (r: Vec<u8>)
    ensures
        r@ == dns_query(),
{
    let r = vec![0u8, 0, 0, 0, 0, 1, 0, 0, 0, 0, 0, 0, 0, 0, 0, 0, 0];
    assert(r@ =~= dns_query());
    r
}

/// A session that sends the minimal DNS query to `address` over UDP: the UDP
/// echo session with that payload.
pub fn dns(address: SocketAddress, deadline: Option<Moment>) -> (r: Session)
    ensures
        r.probe matches Probe::Udp { address: a, payload } && a == address && payload@ == dns_query(),
        r.deadline == deadline,
        r.stage == Stage::Idle,
{
    let request = dns_request();
    echo(address, request.as_slice(), deadline)
}

} // verus!
