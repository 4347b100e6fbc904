use vstd::prelude::*;
use crate::address::{family_of, unspecified_of, IpAddress, SocketAddress};
use crate::deadline::{deadline_to_timeout, remaining, Moment, Span};
use crate::icmp::{echo_request, judge_reply, ECHO_LEN};
use crate::outcome::{outcome_of_error, Outcome};

verus! {

/// What a session probes, and how.
#[derive(Debug)]
#[allow(inconsistent_fields)]
pub enum Probe {
    /// An ICMP echo request to an address.
    Icmp { address: IpAddress },
    /// A TCP connection to a socket address.
    Tcp { address: SocketAddress },
    /// A UDP datagram to a socket address, answered by any datagram.
    Udp { address: SocketAddress, payload: Vec<u8> },
}

/// Where a session stands: the step it last asked for.
#[derive(Clone, Copy, Debug, PartialEq, Eq, Structural)]
pub enum Stage {
    Idle,
    Opening,
    SettingWriteTimeout,
    Sending,
    SettingReadTimeout,
    Receiving,
    Finished,
}

/// The next step that the runner of a session performs.
#[derive(Clone, Copy, Debug)]
pub enum Action {
    /// Open a datagram echo socket (ICMP or ICMPv6, after the family of the
    /// address) and associate it with the address.
    OpenIcmp(IpAddress),
    /// Bind a UDP socket to `local` and associate it with `remote`.
    OpenUdp { local: SocketAddress, remote: SocketAddress },
    /// Establish a TCP connection, bounded by the timeout if there is one.
    Connect { address: SocketAddress, timeout: Option<Span> },
    /// Bound the next send by the timeout, or not at all.
    SetWriteTimeout(Option<Span>),
    /// Send the bytes of `Session::request` in one datagram.
    Send,
    /// Bound the next receive by the timeout, or not at all.
    SetReadTimeout(Option<Span>),
    /// Read exactly this many bytes.
    ReceiveExact(usize),
    /// Wait for one datagram, whatever it holds.
    ReceiveAny,
    /// The probe is over, with this outcome; the socket is released.
    Finish(Outcome),
}

/// What became of the step last asked for.
#[derive(Debug)]
pub enum Event {
    /// It completed.
    Done,
    /// A receive completed with these bytes.
    Received(Vec<u8>),
    /// It failed with an I/O error of this kind.
    Failed(std::io::ErrorKind),
}

/// One probe invocation: what it probes, its absolute deadline, and its stage.
/// Every session is built fresh and shares nothing with any other.
#[derive(Debug)]
pub struct Session {
    pub probe: Probe,
    pub deadline: Option<Moment>,
    pub stage: Stage,
}

/// The bytes that the `Send` step of a probe transmits.
pub open spec fn request_bytes(probe: Probe) -> Seq<u8> {
    match probe {
        Probe::Icmp { address } => echo_request(family_of(address)),
        Probe::Tcp { .. } => Seq::empty(),
        Probe::Udp { payload, .. } => payload@,
    }
}

/// Whether `e` is a report that session `s` can take: one on a step it asked
/// for, and for an ICMP receive, the full echo message or a failure.
pub open spec fn expects(s: Session, e: Event) -> bool {
    match s.stage {
        Stage::Idle | Stage::Finished => false,
        Stage::Receiving => s.probe is Icmp ==> (e is Failed || (e matches Event::Received(b)
            && b@.len() == ECHO_LEN)),
        _ => true,
    }
}

/// A step bounded by `t`, asked for at `stage`: when no time is left it is not
/// taken at all and the session ends as a timeout, since waiting zero time can
/// only time out.
pub open spec fn bounded(stage: Stage, t: Option<Span>, a: Action) -> (Stage, Action) {
    if t == Some(Span { nanos: 0 }) {
        (Stage::Finished, Action::Finish(Outcome::Timeout))
    } else {
        (stage, a)
    }
}

/// The first step of a session started at `now`, and its stage after it.
pub open spec fn begin(s: Session, now: Moment) -> (Stage, Action) {
    match s.probe {
        Probe::Icmp { address } => (Stage::Opening, Action::OpenIcmp(address)),
        Probe::Tcp { address } => bounded(
            Stage::Opening,
            remaining(s.deadline, now),
            Action::Connect { address, timeout: remaining(s.deadline, now) },
        ),
        Probe::Udp { address, .. } => (
            Stage::Opening,
            Action::OpenUdp {
                local: SocketAddress { ip: unspecified_of(family_of(address.ip)), port: 0 },
                remote: address,
            },
        ),
    }
}

/// The outcome of a receive that completed with event `e`: an ICMP response is
/// judged by its type byte, anything that comes back over UDP is a success.
pub open spec fn judge_response(probe: Probe, e: Event) -> Outcome {
    match probe {
        Probe::Icmp { address } => match e {
            Event::Received(b) => judge_reply(family_of(address), b@[0]),
            _ => Outcome::Success,
        },
        _ => Outcome::Success,
    }
}

/// The step that follows event `e` reported at `now`, and the stage after it.
/// A failure ends the session at once; each timeout is computed afresh from the
/// deadline at the moment its step is asked for.
pub open spec fn next(s: Session, e: Event, now: Moment) -> (Stage, Action) {
    match e {
        Event::Failed(kind) => (Stage::Finished, Action::Finish(outcome_of_error(kind))),
        _ => match s.stage {
            Stage::Opening => if s.probe is Tcp {
                (Stage::Finished, Action::Finish(Outcome::Success))
            } else {
                bounded(
                    Stage::SettingWriteTimeout,
                    remaining(s.deadline, now),
                    Action::SetWriteTimeout(remaining(s.deadline, now)),
                )
            },
            Stage::SettingWriteTimeout => (Stage::Sending, Action::Send),
            Stage::Sending => bounded(
                Stage::SettingReadTimeout,
                remaining(s.deadline, now),
                Action::SetReadTimeout(remaining(s.deadline, now)),
            ),
            Stage::SettingReadTimeout => (
                Stage::Receiving,
                if s.probe is Icmp {
                    Action::ReceiveExact(ECHO_LEN)
                } else {
                    Action::ReceiveAny
                },
            ),
            Stage::Receiving => (Stage::Finished, Action::Finish(judge_response(s.probe, e))),
            _ => (s.stage, Action::Finish(Outcome::Success)),
        },
    }
}

/// Session `s` moved on to `stage`, all else kept.
pub open spec fn resume(s: Session, stage: Stage) -> Session {
    Session { probe: s.probe, deadline: s.deadline, stage }
}

/// Feeds `steps` (each a report and the moment it is made) to session `s` in
/// order: the session after them and the last step it asked for.
pub open spec fn replay(s: Session, steps: Seq<(Event, Moment)>) -> (Session, Option<Action>)
    decreases steps.len(),
{
    if steps.len() == 0 {
        (s, None)
    } else {
        let (stage, action) = next(s, steps[0].0, steps[0].1);
        if steps.len() == 1 {
            (resume(s, stage), Some(action))
        } else {
            replay(resume(s, stage), steps.drop_first())
        }
    }
}

/// Whether each report of `steps` is one that the session can take when it comes.
pub open spec fn replay_accepted(s: Session, steps: Seq<(Event, Moment)>) -> bool
    decreases steps.len(),
{
    steps.len() == 0 || (expects(s, steps[0].0) && replay_accepted(
        resume(s, next(s, steps[0].0, steps[0].1).0),
        steps.drop_first(),
    ))
}

/// The bound that a step carries on how long it may wait, if it is a step that waits
/// on its own terms.
pub open spec fn bound_of(a: Action) -> Option<Option<Span>> {
    match a {
        Action::Connect { timeout, .. } => Some(timeout),
        Action::SetWriteTimeout(t) => Some(t),
        Action::SetReadTimeout(t) => Some(t),
        _ => None,
    }
}

impl Session {
    /// Starts the session at `now`: the first step to perform.
    pub fn start(&mut self, now: Moment) -> (r: Action)
        requires
            old(self).stage == Stage::Idle,
        ensures
            (final(self).stage, r) == begin(*old(self), now),
            final(self).probe == old(self).probe,
            final(self).deadline == old(self).deadline,
    {
        match &self.probe {
            Probe::Icmp { address } => {
                let r = Action::OpenIcmp(*address);
                self.stage = Stage::Opening;
                r
            },
            Probe::Tcp { address } => {
                let timeout = deadline_to_timeout(self.deadline, now);
                let r = Action::Connect { address: *address, timeout };
                self.bounded_step(Stage::Opening, timeout, r)
            },
            Probe::Udp { address, .. } => {
                let r = Action::OpenUdp {
                    local: crate::udp::bind_address(address.ip.family()),
                    remote: *address,
                };
                self.stage = Stage::Opening;
                r
            },
        }
    }

    /// Asks for step `a`, bounded by `timeout`, moving to `stage`; or, when no
    /// time is left, finishes as a timeout.
    fn bounded_step(&mut self, stage: Stage, timeout: Option<Span>, a: Action) -> (r: Action)
        ensures
            (final(self).stage, r) == bounded(stage, timeout, a),
            final(self).probe == old(self).probe,
            final(self).deadline == old(self).deadline,
    {
        let no_time_left = match timeout {
            Some(t) => t.nanos == 0,
            None => false,
        };
        if no_time_left {
            self.stage = Stage::Finished;
            Action::Finish(Outcome::Timeout)
        } else {
            self.stage = stage;
            a
        }
    }

    /// Whether the session can take `event` now (see `expects`).
    pub fn accepts(&self, event: &Event) -> (r: bool)
        ensures
            r == expects(*self, *event),
    {
        match self.stage {
            Stage::Idle | Stage::Finished => false,
            Stage::Receiving => match &self.probe {
                Probe::Icmp { .. } => match event {
                    Event::Failed(_) => true,
                    Event::Received(b) => b.len() == ECHO_LEN,
                    Event::Done => false,
                },
                _ => true,
            },
            _ => true,
        }
    }

    /// Takes the report on the step last asked for, made at `now`, and gives the next step.
    pub fn advance(&mut self, event: Event, now: Moment) -> (r: Action)
        requires
            expects(*old(self), event),
        ensures
            (final(self).stage, r) == next(*old(self), event, now),
            final(self).probe == old(self).probe,
            final(self).deadline == old(self).deadline,
    {
        if let Event::Failed(kind) = event {
            self.stage = Stage::Finished;
            return Action::Finish(Outcome::from_error(kind));
        }
        match self.stage {
            Stage::Opening => {
                if let Probe::Tcp { .. } = self.probe {
                    self.stage = Stage::Finished;
                    Action::Finish(Outcome::Success)
                } else {
                    let timeout = deadline_to_timeout(self.deadline, now);
                    self.bounded_step(
                        Stage::SettingWriteTimeout,
                        timeout,
                        Action::SetWriteTimeout(timeout),
                    )
                }
            },
            Stage::SettingWriteTimeout => {
                self.stage = Stage::Sending;
                Action::Send
            },
            Stage::Sending => {
                let timeout = deadline_to_timeout(self.deadline, now);
                self.bounded_step(Stage::SettingReadTimeout, timeout, Action::SetReadTimeout(timeout))
            },
            Stage::SettingReadTimeout => {
                self.stage = Stage::Receiving;
                if let Probe::Icmp { .. } = self.probe {
                    Action::ReceiveExact(ECHO_LEN)
                } else {
                    Action::ReceiveAny
                }
            },
            Stage::Receiving => {
                self.stage = Stage::Finished;
                let outcome = match &self.probe {
                    Probe::Icmp { address } => match &event {
                        Event::Received(b) => crate::icmp::judge(address.family(), b[0]),
                        _ => Outcome::Success,
                    },
                    _ => Outcome::Success,
                };
                Action::Finish(outcome)
            },
            _ => Action::Finish(Outcome::Success),
        }
    }

    /// The bytes that the `Send` step transmits.
    pub fn request(&self) -> (r: Vec<u8>)
        ensures
            r@ == request_bytes(self.probe),
    {
        match &self.probe {
            Probe::Icmp { address } => crate::icmp::request(address.family()),
            Probe::Tcp { .. } => Vec::new(),
            Probe::Udp { payload, .. } => payload.clone(),
        }
    }
}

} // verus!
