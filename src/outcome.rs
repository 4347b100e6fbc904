use vstd::prelude::*;
use crate::error::is_timeout_kind;

verus! {

/// Why a probe failed, when it did not simply run out of time.
#[derive(Clone, Copy, Debug)]
pub enum Failure {
    /// An I/O step failed for a reason other than running out of time.
    Transport(std::io::ErrorKind),
    /// An ICMP response arrived whose type is not the echo reply of its family.
    UnexpectedType(u8),
}

/// What one probe invocation comes to.
#[derive(Clone, Copy, Debug)]
pub enum Outcome {
    Success,
    Timeout,
    Failed(Failure),
}

/// The outcome of a probe whose I/O step failed with an error of this kind.
pub open spec fn outcome_of_error(kind: std::io::ErrorKind) -> Outcome {
    if is_timeout_kind(kind) {
        Outcome::Timeout
    } else {
        Outcome::Failed(Failure::Transport(kind))
    }
}

impl Outcome {
    /// Classifies a failed I/O step: a timeout, or a transport error kept as it came.
    pub fn from_error(kind: std::io::ErrorKind) -> (r: Outcome)
        ensures
            r == outcome_of_error(kind),
    {
        if crate::error::is_timeout(&kind) {
            Outcome::Timeout
        } else {
            Outcome::Failed(Failure::Transport(kind))
        }
    }

    pub fn is_success(&self) -> (r: bool)
        ensures
            r == (*self is Success),
    {
        match self {
            Outcome::Success => true,
            _ => false,
        }
    }

    pub fn is_timeout(&self) -> (r: bool)
        ensures
            r == (*self is Timeout),
    {
        match self {
            Outcome::Timeout => true,
            _ => false,
        }
    }
}

} // verus!
