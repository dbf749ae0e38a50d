//! Caller-input constraint violations raised by the privacy protocols.

use vstd::prelude::*;

verus! {

/// Why a privacy-protocol request was rejected. Every variant is a
/// constraint violation: a caller-input error, never retried.
#[derive(Clone, Copy, Debug, PartialEq, Eq, Structural)]
pub enum ErrorCode {
    /// The ring would hold fewer than the 11 members privacy requires.
    RingTooSmall,
    /// The ring's member list does not match its declared size.
    InvalidRingSize,
    /// Fewer than the 10 decoy paths traffic-analysis resistance requires.
    InsufficientDecoys,
}

} // verus!
