//! The time-locked multi-signature vault: funds release only after both an
//! M-of-N signature quorum and a time deadline are satisfied.
//!
//! The state machine runs `Locked → PartiallyUnlocked(n) → Unlocked`;
//! `EmergencyRecovery` is a separate terminal reached only through an
//! out-of-scope recovery path. Time is supplied by the caller from the
//! external clock capability, once per call.

use vstd::prelude::*;
use crate::byteops::{append_bytes, append_i64_le, spec_i64_to_le_bytes};
use crate::hashes::{sha3_256, sha3_256_of};
use crate::quantum::errors::ErrorCode;
use crate::quantum::signature::{spec_signature_valid, QuantumResistantSignature};

verus! {

/// Where a vault stands in its unlock lifecycle.
#[derive(Clone, Copy, Debug, PartialEq, Eq, Structural)]
pub enum VaultState {
    /// No signatures collected yet.
    Locked,
    /// The number of signatures collected so far.
    PartiallyUnlocked(u8),
    /// The quorum is reached; funds may be released.
    Unlocked,
    /// The out-of-scope recovery flow has taken over.
    EmergencyRecovery,
}

/// All signer keys laid end to end, in order: the preimage of the recovery
/// hash.
pub open spec fn spec_keys_bytes(keys: Seq<[u8; 64]>) -> Seq<u8>
    decreases keys.len(),
{
    if keys.len() == 0 {
        Seq::empty()
    } else {
        spec_keys_bytes(keys.drop_last()) + keys.last()@
    }
}

/// The emergency recovery hash: all keys plus the lock deadline. Consumed
/// by the external recovery flow, not exercised here.
pub open spec fn spec_recovery_hash(keys: Seq<[u8; 64]>, time_lock_until: i64) -> Seq<u8> {
    sha3_256_of(spec_keys_bytes(keys) + spec_i64_to_le_bytes(time_lock_until))
}

/// What one accepted signature does to the vault state: `Locked` starts the
/// count at one; a partial count advances, reaching `Unlocked` once it meets
/// the threshold; the terminal states reject. (From `Locked` the count
/// always starts at one, whatever the threshold — so a threshold of one
/// still takes a second signature to reach `Unlocked`.)
pub open spec fn spec_signature_step(state: VaultState, required: u8) -> Result<VaultState, ErrorCode> {
    match state {
        VaultState::Locked => Ok(VaultState::PartiallyUnlocked(1)),
        VaultState::PartiallyUnlocked(count) => {
            if count + 1 >= required {
                Ok(VaultState::Unlocked)
            } else {
                Ok(VaultState::PartiallyUnlocked((count + 1) as u8))
            }
        },
        VaultState::Unlocked => Err(ErrorCode::InvalidVaultState),
        VaultState::EmergencyRecovery => Err(ErrorCode::InvalidVaultState),
    }
}

/// The vault state after `n` accepted signatures starting from `Locked`.
pub open spec fn spec_collected(n: nat, required: u8) -> VaultState
    decreases n,
{
    if n == 0 {
        VaultState::Locked
    } else {
        match spec_signature_step(spec_collected((n - 1) as nat, required), required) {
            Ok(s) => s,
            Err(_) => spec_collected((n - 1) as nat, required),
        }
    }
}

/// An M-of-N vault guarded by a time lock.
#[derive(Clone, Debug)]
pub struct QuantumVault {
    /// How many signatures unlock the vault.
    pub required_signatures: u8,
    /// How many signers hold keys.
    pub total_signers: u8,
    /// No signature is accepted before this time.
    pub time_lock_until: i64,
    /// One 64-byte key per signer.
    pub quantum_keys: Vec<[u8; 64]>,
    /// The hash the external recovery flow checks against.
    pub emergency_recovery_hash: [u8; 32],
    /// Where the vault stands.
    pub vault_state: VaultState,
}

/// The vault's well-formedness: the threshold fits the signer count, every
/// signer has a key, and a partial count is at least one and below the
/// threshold (or the initial one). Constructors establish it; every
/// signature submission preserves it.
pub open spec fn spec_vault_wf(v: QuantumVault) -> bool {
    &&& v.required_signatures <= v.total_signers
    &&& v.quantum_keys@.len() == v.total_signers as int
    &&& (v.vault_state matches VaultState::PartiallyUnlocked(count)
        ==> 1 <= count && (count < v.required_signatures || count == 1))
}

impl QuantumVault {
    /// Creates a vault, `Locked`, with the time lock `time_lock_duration`
    /// past `now`. Fails exactly when the threshold exceeds the signer count
    /// or the key list does not match it, in that order of checks.
    pub fn new(
        required_signatures: u8,
        total_signers: u8,
        time_lock_duration: i64,
        quantum_keys: Vec<[u8; 64]>,
        now: i64,
    ) -> (r: Result<Self, ErrorCode>)
        requires
            i64::MIN <= now + time_lock_duration <= i64::MAX,
        ensures
            required_signatures > total_signers
                ==> r == Err::<QuantumVault, ErrorCode>(ErrorCode::InvalidThreshold),
            required_signatures <= total_signers
                && quantum_keys@.len() != total_signers as int
                ==> r == Err::<QuantumVault, ErrorCode>(ErrorCode::InvalidKeyCount),
            required_signatures <= total_signers
                && quantum_keys@.len() == total_signers as int ==> ({
                &&& r matches Ok(v)
                &&& v.required_signatures == required_signatures
                &&& v.total_signers == total_signers
                &&& v.time_lock_until == now + time_lock_duration
                &&& v.quantum_keys@ == quantum_keys@
                &&& v.emergency_recovery_hash@ == spec_recovery_hash(
                    quantum_keys@,
                    (now + time_lock_duration) as i64,
                )
                &&& v.vault_state == VaultState::Locked
                &&& spec_vault_wf(v)
            }),
    {
        if required_signatures > total_signers {
            return Err(ErrorCode::InvalidThreshold);
        }
        if quantum_keys.len() != total_signers as usize {
            return Err(ErrorCode::InvalidKeyCount);
        }

        let time_lock_until = now + time_lock_duration;

        let mut hash_input: Vec<u8> = Vec::new();
        let n = quantum_keys.len();
        let mut i: usize = 0;
        while i < n
            invariant
                i <= n,
                n == quantum_keys@.len(),
                hash_input@ == spec_keys_bytes(quantum_keys@.subrange(0, i as int)),
            decreases n - i,
        {
            let key = quantum_keys[i];
            append_bytes(&mut hash_input, key.as_slice());
            proof {
                let prefix = quantum_keys@.subrange(0, i + 1);
                assert(prefix.drop_last() =~= quantum_keys@.subrange(0, i as int));
                assert(prefix.last() == quantum_keys@[i as int]);
            }
            i = i + 1;
        }
        proof {
            assert(quantum_keys@.subrange(0, n as int) =~= quantum_keys@);
        }
        append_i64_le(&mut hash_input, time_lock_until);
        let emergency_recovery_hash = sha3_256(&hash_input);

        Ok(QuantumVault {
            required_signatures,
            total_signers,
            time_lock_until,
            quantum_keys,
            emergency_recovery_hash,
            vault_state: VaultState::Locked,
        })
    }

    /// Submits one signature. Rejected with `TimeLockActive` before the
    /// deadline — retryable, not exceptional — and with `InvalidSignature`
    /// when the verification predicate fails; otherwise the state advances
    /// by one step, or the call fails with `InvalidVaultState` in a terminal
    /// state. The checks precede any mutation, so a failed call leaves the
    /// vault unchanged.
    pub fn add_signature(&mut self, signature: &QuantumResistantSignature, now: i64) -> (r: Result<(), ErrorCode>)
        requires
            spec_vault_wf(*old(self)),
        ensures
            spec_vault_wf(*final(self)),
            final(self).required_signatures == old(self).required_signatures,
            final(self).total_signers == old(self).total_signers,
            final(self).time_lock_until == old(self).time_lock_until,
            final(self).quantum_keys@ == old(self).quantum_keys@,
            final(self).emergency_recovery_hash == old(self).emergency_recovery_hash,
            now < old(self).time_lock_until ==> ({
                &&& r == Err::<(), ErrorCode>(ErrorCode::TimeLockActive)
                &&& final(self).vault_state == old(self).vault_state
            }),
            now >= old(self).time_lock_until && !spec_signature_valid(*signature) ==> ({
                &&& r == Err::<(), ErrorCode>(ErrorCode::InvalidSignature)
                &&& final(self).vault_state == old(self).vault_state
            }),
            now >= old(self).time_lock_until && spec_signature_valid(*signature)
                ==> match spec_signature_step(old(self).vault_state, old(self).required_signatures) {
                    Ok(next) => r == Ok::<(), ErrorCode>(()) && final(self).vault_state == next,
                    Err(e) => r == Err::<(), ErrorCode>(e)
                        && final(self).vault_state == old(self).vault_state,
                },
    {
        if now < self.time_lock_until {
            return Err(ErrorCode::TimeLockActive);
        }

        let valid = match signature.verify() {
            Ok(b) => b,
            Err(e) => {
                return Err(e);
            },
        };
        if !valid {
            return Err(ErrorCode::InvalidSignature);
        }

        match self.vault_state {
            VaultState::Locked => {
                self.vault_state = VaultState::PartiallyUnlocked(1);
                Ok(())
            },
            VaultState::PartiallyUnlocked(count) => {
                let new_count = count + 1;
                if new_count >= self.required_signatures {
                    self.vault_state = VaultState::Unlocked;
                } else {
                    self.vault_state = VaultState::PartiallyUnlocked(new_count);
                }
                Ok(())
            },
            VaultState::Unlocked => Err(ErrorCode::InvalidVaultState),
            VaultState::EmergencyRecovery => Err(ErrorCode::InvalidVaultState),
        }
    }

    /// True exactly when the quorum has been reached.
    pub fn is_unlocked(&self) -> (r: bool)
        ensures
            r == (self.vault_state == VaultState::Unlocked),
    {
        self.vault_state == VaultState::Unlocked
    }
}

/// Law: starting from `Locked` with a threshold of at least two, the first
/// `required - 1` accepted signatures pass through `PartiallyUnlocked(1)`
/// up to `PartiallyUnlocked(required - 1)`, and the `required`-th reaches
/// `Unlocked`.
pub proof fn lemma_quorum_unlocks(n: nat, required: u8)
    requires
        2 <= required,
        n <= required,
    ensures
        1 <= n < required ==> spec_collected(n, required) == VaultState::PartiallyUnlocked(n as u8),
        n == required ==> spec_collected(n, required) == VaultState::Unlocked,
    decreases n,
{
    if n > 0 {
        lemma_quorum_unlocks((n - 1) as nat, required);
    }
}

/// Law: a signature submitted while the vault is already `Unlocked` or in
/// `EmergencyRecovery` is rejected as an invalid-state error; the state does
/// not advance.
pub proof fn lemma_terminal_states_reject(required: u8)
    ensures
        spec_signature_step(VaultState::Unlocked, required)
            == Err::<VaultState, ErrorCode>(ErrorCode::InvalidVaultState),
        spec_signature_step(VaultState::EmergencyRecovery, required)
            == Err::<VaultState, ErrorCode>(ErrorCode::InvalidVaultState),
{
}

} // verus!
