//! Failures raised by the vault, sharing and ciphertext operations.

use vstd::prelude::*;

verus! {

/// Why a vault, sharing or ciphertext operation failed. `TimeLockActive` is
/// retryable once the deadline passes; `InvalidVaultState` is a state
/// violation checked before any mutation; the rest are caller-input errors.
#[derive(Clone, Copy, Debug, PartialEq, Eq, Structural)]
pub enum ErrorCode {
    /// More signatures required than there are signers.
    InvalidThreshold,
    /// The key list does not match the declared number of signers.
    InvalidKeyCount,
    /// The time lock has not expired yet.
    TimeLockActive,
    /// The signature failed its verification predicate.
    InvalidSignature,
    /// The vault is in a terminal state and accepts no more signatures.
    InvalidVaultState,
    /// Not enough noise budget remains for the homomorphic operation.
    InsufficientNoiseBudget,
    /// Fewer shares supplied than the reconstruction threshold.
    InsufficientShares,
    /// A share's value does not match its commitment.
    InvalidShareCommitment,
}

} // verus!
