use vstd::prelude::*;

verus! {

/// A point on a monotonic clock, in nanoseconds since an origin fixed by the caller.
#[derive(Clone, Copy, Debug, PartialEq, Eq, Structural)]
pub struct Moment {
    pub nanos: u64,
}

/// A length of time, in nanoseconds.
#[derive(Clone, Copy, Debug, PartialEq, Eq, Structural)]
pub struct Span {
    pub nanos: u64,
}

/// The time left until `deadline` as seen at `now`: none without a deadline,
/// zero once the deadline has passed.
pub open spec fn remaining(deadline: Option<Moment>, now: Moment) -> Option<Span> {
    match deadline {
        None => None,
        Some(d) => Some(
            Span { nanos: if d.nanos >= now.nanos { (d.nanos - now.nanos) as u64 } else { 0 } },
        ),
    }
}

/// Turns an optional absolute deadline into the timeout that an I/O step
/// starting at `now` may wait: no timeout without a deadline, never negative.
pub fn deadline_to_timeout(deadline: Option<Moment>, now: Moment) -> (r: Option<Span>)
    ensures
        r == remaining(deadline, now),
        deadline.is_none() <==> r.is_none(),
{
    match deadline {
        None => None,
        Some(d) => Some(Span { nanos: d.nanos.saturating_sub(now.nanos) }),
    }
}

} // verus!
