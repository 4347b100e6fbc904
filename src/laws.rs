use vstd::prelude::*;
use crate::address::family_of;
use crate::deadline::{Moment, Span};
use crate::error::is_timeout_kind;
use crate::icmp::{reply_type, ECHO_LEN};
use crate::outcome::{Failure, Outcome};
use crate::udp::dns_query;
use crate::session::{
    begin, bound_of, expects, next, replay, replay_accepted, request_bytes, resume, Action,
    Event, Probe, Session, Stage,
};

verus! {

/// Once the deadline has passed, no session waits: each step that would be
/// bounded by the deadline ends the session as a timeout instead, and a step
/// that fails for lack of time ends it as a timeout too.
pub proof fn expired_deadline_never_waits(s: Session, e: Event, now: Moment)
    requires
        s.deadline matches Some(d) && d.nanos <= now.nanos,
    ensures
        bound_of(begin(s, now).1) is None,
        bound_of(next(s, e, now).1) is None,
        s.probe is Tcp ==> begin(s, now) == (Stage::Finished, Action::Finish(Outcome::Timeout)),
        !(e is Failed) && ((s.stage == Stage::Opening && !(s.probe is Tcp)) || s.stage
            == Stage::Sending) ==> next(s, e, now) == (
            Stage::Finished,
            Action::Finish(Outcome::Timeout),
        ),
        e matches Event::Failed(k) ==> (is_timeout_kind(k) ==> next(s, e, now).1 == Action::Finish(
            Outcome::Timeout,
        )),
{
}

/// Without a deadline no step is bounded.
pub proof fn no_deadline_no_bound(s: Session, e: Event, now: Moment)
    requires
        s.deadline is None,
    ensures
        bound_of(begin(s, now).1) matches Some(t) ==> t is None,
        bound_of(next(s, e, now).1) matches Some(t) ==> t is None,
{
}

/// A responsive target makes a fresh session succeed: every step completes (for
/// ICMP the response is an echo reply of the right type) and the session
/// finishes with `Success`, provided time is left when each bounded step is asked for.
pub proof fn responsive_target_succeeds(s: Session, steps: Seq<(Event, Moment)>)
    requires
        s.stage == Stage::Opening,
        s.probe is Tcp ==> steps.len() == 1 && steps[0].0 is Done,
        !(s.probe is Tcp) ==> steps.len() == 5 && steps[0].0 is Done && steps[1].0 is Done
            && steps[2].0 is Done && steps[3].0 is Done,
        s.probe matches Probe::Icmp { address } ==> steps[4].0 matches Event::Received(b)
            && b@.len() == ECHO_LEN && b@[0] == reply_type(family_of(address)),
        s.probe is Udp ==> !(steps[4].0 is Failed),
        !(s.probe is Tcp) ==> (s.deadline matches Some(d) ==> steps[0].1.nanos < d.nanos
            && steps[2].1.nanos < d.nanos),
    ensures
        replay_accepted(s, steps),
        replay(s, steps).1 == Some(Action::Finish(Outcome::Success)),
        replay(s, steps).0.stage == Stage::Finished,
{
    reveal_with_fuel(replay, 6);
    reveal_with_fuel(replay_accepted, 6);
    if !(s.probe is Tcp) {
        let s1 = resume(s, Stage::SettingWriteTimeout);
        let s2 = resume(s1, Stage::Sending);
        let s3 = resume(s2, Stage::SettingReadTimeout);
        let s4 = resume(s3, Stage::Receiving);
        assert(steps.drop_first().drop_first().drop_first().drop_first() =~= seq![steps[4]]);
        assert(replay(s4, seq![steps[4]]).1 == Some(Action::Finish(Outcome::Success)));
    }
}

/// An ICMP response is judged by its type byte alone: the echo reply of the
/// family is a success, any other type a failure that carries that byte, and
/// never a timeout.
pub proof fn icmp_reply_judged(s: Session, b: Vec<u8>, now: Moment)
    requires
        s.probe is Icmp,
        s.stage == Stage::Receiving,
        b@.len() == ECHO_LEN,
    ensures
        expects(s, Event::Received(b)),
        next(s, Event::Received(b), now).1 == Action::Finish(
            if b@[0] == reply_type(family_of(s.probe->Icmp_address)) {
                Outcome::Success
            } else {
                Outcome::Failed(Failure::UnexpectedType(b@[0]))
            },
        ),
{
}

/// A TCP probe is decided by the handshake: completed, a success; refused or
/// otherwise failed for a reason other than time, a transport error.
pub proof fn tcp_handshake_decides(s: Session, e: Event, now: Moment)
    requires
        s.probe is Tcp,
        s.stage == Stage::Opening,
    ensures
        e is Done ==> next(s, e, now) == (Stage::Finished, Action::Finish(Outcome::Success)),
        e matches Event::Failed(k) ==> (!is_timeout_kind(k) ==> next(s, e, now) == (
            Stage::Finished,
            Action::Finish(Outcome::Failed(Failure::Transport(k))),
        )),
{
}

/// A UDP probe succeeds on any datagram that comes back, whatever it holds;
/// a step that fails for a reason other than time ends it with a transport error.
pub proof fn udp_any_reply_succeeds(s: Session, e: Event, now: Moment)
    requires
        s.probe is Udp,
    ensures
        s.stage == Stage::Receiving && !(e is Failed) ==> next(s, e, now).1 == Action::Finish(
            Outcome::Success,
        ),
        e matches Event::Failed(k) ==> (!is_timeout_kind(k) ==> next(s, e, now).1
            == Action::Finish(Outcome::Failed(Failure::Transport(k)))),
{
}

/// Whether two probes ask for the same thing: the same kind, address and
/// payload bytes.
pub open spec fn same_probe(p1: Probe, p2: Probe) -> bool {
    match (p1, p2) {
        (Probe::Udp { address: a1, payload: b1 }, Probe::Udp { address: a2, payload: b2 }) => a1
            == a2 && b1@ == b2@,
        _ => p1 == p2,
    }
}

/// Sessions carry no state but their own: two sessions that ask for the same
/// probe with the same deadline and stand at the same stage send the same bytes
/// and take every sequence of reports alike. So a probe made twice, in either
/// order, comes to the same outcome given the same network behaviour.
pub proof fn same_request_same_behaviour(
    s1: Session,
    s2: Session,
    steps: Seq<(Event, Moment)>,
    now: Moment,
)
    requires
        same_probe(s1.probe, s2.probe),
        s1.deadline == s2.deadline,
        s1.stage == s2.stage,
    ensures
        request_bytes(s1.probe) == request_bytes(s2.probe),
        begin(s1, now) == begin(s2, now),
        replay(s1, steps).1 == replay(s2, steps).1,
        replay(s1, steps).0.stage == replay(s2, steps).0.stage,
        replay_accepted(s1, steps) == replay_accepted(s2, steps),
    decreases steps.len(),
{
    if steps.len() > 0 {
        assert(expects(s1, steps[0].0) == expects(s2, steps[0].0));
        assert(next(s1, steps[0].0, steps[0].1) == next(s2, steps[0].0, steps[0].1));
        let st = next(s1, steps[0].0, steps[0].1).0;
        same_request_same_behaviour(resume(s1, st), resume(s2, st), steps.drop_first(), now);
    }
}

/// The DNS probe is the UDP echo probe whose payload is the DNS query: a session
/// that `udp::dns` builds and one that `udp::echo` builds with those bytes, to the
/// same address and deadline, behave alike at every step.
pub proof fn dns_is_udp_echo_of_query(
    dns: Session,
    echo: Session,
    data: Seq<u8>,
    steps: Seq<(Event, Moment)>,
    now: Moment,
)
    requires
        dns.probe matches Probe::Udp { address: a1, payload: p1 },
        echo.probe matches Probe::Udp { address: a2, payload: p2 },
        dns.probe->Udp_address == echo.probe->Udp_address,
        dns.probe->Udp_payload@ == dns_query(),
        echo.probe->Udp_payload@ == data,
        data == dns_query(),
        dns.deadline == echo.deadline,
        dns.stage == echo.stage,
    ensures
        request_bytes(dns.probe) == request_bytes(echo.probe),
        begin(dns, now) == begin(echo, now),
        replay(dns, steps).1 == replay(echo, steps).1,
        replay_accepted(dns, steps) == replay_accepted(echo, steps),
{
    same_request_same_behaviour(dns, echo, steps, now);
}

} // verus!
