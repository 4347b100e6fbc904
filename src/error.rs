use vstd::prelude::*;

verus! {

/// std's `io::ErrorKind`, with its variants visible, so that verified code can
/// tell a timeout from other failures.
#[verifier::external_type_specification]
pub struct ExErrorKind(std::io::ErrorKind);

/// Whether an I/O error of this kind means that a step ran out of time.
pub open spec fn is_timeout_kind(kind: std::io::ErrorKind) -> bool {
    kind is WouldBlock || kind is TimedOut
}

/// Tells a timed-out I/O step (would block, or timed out) from any other failure.
pub fn is_timeout(err: &std::io::ErrorKind) -> (r: bool)
    ensures
        r == is_timeout_kind(*err),
{
    match err {
        std::io::ErrorKind::WouldBlock | std::io::ErrorKind::TimedOut => true,
        _ => false,
    }
}

} // verus!
