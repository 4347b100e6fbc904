use vstd::prelude::*;
use crate::address::{family_of, Family, IpAddress};
use crate::deadline::Moment;
use crate::outcome::{Failure, Outcome};
use crate::session::{Probe, Session, Stage};

verus! {

/// Length of an ICMP echo message without data: type, code, checksum, identifier, sequence.
pub const ECHO_LEN: usize = 8;

/// The echo request type of a family: 8 for ICMP, 128 for ICMPv6.
pub open spec fn request_type(family: Family) -> u8 {
    match family {
        Family::V4 => 8,
        Family::V6 => 128,
    }
}

/// The echo reply type of a family: 0 for ICMP, 129 for ICMPv6.
pub open spec fn reply_type(family: Family) -> u8 {
    match family {
        Family::V4 => 0,
        Family::V6 => 129,
    }
}

/// An echo request: its type byte, then seven zero bytes.
pub open spec fn echo_request(family: Family) -> Seq<u8> {
    seq![request_type(family), 0u8, 0u8, 0u8, 0u8, 0u8, 0u8, 0u8]
}

/// The outcome of an echo exchange whose response has this type byte.
pub open spec fn judge_reply(family: Family, response_type: u8) -> Outcome {
    if response_type == reply_type(family) {
        Outcome::Success
    } else {
        Outcome::Failed(Failure::UnexpectedType(response_type))
    }
}

/// The request and reply type codes of a family.
pub fn type_codes(family: Family) -> (r: (u8, u8))
    ensures
        r == (request_type(family), reply_type(family)),
{
    match family {
        Family::V4 => (8, 0),
        Family::V6 => (128, 129),
    }
}

/// Builds the echo request of a family.
pub fn request(family: Family) -> (r: Vec<u8>)
    ensures
        r@ == echo_request(family),
{
    let (request_type, _) = type_codes(family);
    let r = vec![request_type, 0, 0, 0, 0, 0, 0, 0];
    assert(r@ =~= echo_request(family));
    r
}

/// Judges a response by its type byte: the echo reply of the family is a success,
/// any other type a failure that carries it.
pub fn judge(family: Family, response_type: u8) -> (r: Outcome)
    ensures
        r == judge_reply(family, response_type),
{
    let (_, expected) = type_codes(family);
    if response_type == expected {
        Outcome::Success
    } else {
        Outcome::Failed(Failure::UnexpectedType(response_type))
    }
}

/// A session that pings `address` with an ICMP echo request over a datagram
/// echo socket, waiting at most until `deadline` at each step.
pub fn echo(address: IpAddress, deadline: Option<Moment>) -> (r: Session)
    ensures
        r.probe == (Probe::Icmp { address }),
        r.deadline == deadline,
        r.stage == Stage::Idle,
{
    Session { probe: Probe::Icmp { address }, deadline, stage: Stage::Idle }
}

} // verus!
