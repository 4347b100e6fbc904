use vstd::prelude::*;
use crate::address::SocketAddress;
use crate::deadline::Moment;
use crate::session::{Probe, Session, Stage};

verus! {

/// A session that establishes a TCP connection to `address`, bounded by
/// `deadline` if there is one; the handshake alone is the success.
pub fn connect(address: SocketAddress, deadline: Option<Moment>) -> (r: Session)
    ensures
        r.probe == (Probe::Tcp { address }),
        r.deadline == deadline,
        r.stage == Stage::Idle,
{
    Session { probe: Probe::Tcp { address }, deadline, stage: Stage::Idle }
}

} // verus!
