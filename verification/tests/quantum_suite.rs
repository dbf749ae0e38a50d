//! Tests for the quantum half: the placeholder signature, the time-locked
//! vault state machine, homomorphic-ciphertext arithmetic, secret sharing
//! and the threat detector. Digest expectations are recomputed directly
//! with the sha3 crate.

use sha3::{Digest, Sha3_256};
use solguard_core::quantum::errors::ErrorCode;
use solguard_core::{
    HomomorphicCiphertext, QuantumResistantSignature, QuantumThreatDetector, QuantumVault,
    SecretShare, ThreatLevel, VaultState,
};

fn sha3_concat(parts: &[&[u8]]) -> [u8; 32] {
    let mut hasher = Sha3_256::new();
    for part in parts {
        hasher.update(part);
    }
    hasher.finalize().into()
}

fn valid_signature() -> QuantumResistantSignature {
    QuantumResistantSignature {
        public_key: [0u8; 64],
        signature: vec![1u8; 64],
        message_hash: [2u8; 32],
        timestamp: 1_234_567_890,
        nonce: 42,
    }
}

#[test]
fn test_quantum_signature() {
    let sig = QuantumResistantSignature {
        public_key: [0u8; 64],
        signature: vec![1u8; 64],
        message_hash: [2u8; 32],
        timestamp: 1234567890,
        nonce: 42,
    };

    assert!(sig.verify().is_ok());
}

#[test]
fn quantum_signature_verify_is_length_check() {
    let mut sig = valid_signature();
    assert!(sig.verify().unwrap());

    sig.signature = vec![1u8; 63];
    assert!(!sig.verify().unwrap());

    sig.signature = vec![0u8; 200];
    assert!(sig.verify().unwrap());
}

#[test]
fn quantum_commitment_matches_hash_derivation() {
    let data = b"account state";
    let commitment = QuantumResistantSignature::generate_commitment(data);
    let expected = sha3_concat(&[data, b"QUANTUM_RESISTANT_COMMITMENT"]);
    assert_eq!(commitment, expected);
}

#[test]
fn vault_new_validates_threshold_and_keys() {
    let keys = vec![[1u8; 64]; 5];
    let result = QuantumVault::new(6, 5, 100, keys.clone(), 1000);
    assert!(matches!(result, Err(ErrorCode::InvalidThreshold)));

    let result = QuantumVault::new(3, 5, 100, vec![[1u8; 64]; 4], 1000);
    assert!(matches!(result, Err(ErrorCode::InvalidKeyCount)));

    let vault = QuantumVault::new(3, 5, 100, keys, 1000).unwrap();
    assert_eq!(vault.time_lock_until, 1100);
    assert_eq!(vault.vault_state, VaultState::Locked);
    assert!(!vault.is_unlocked());
}

#[test]
fn vault_recovery_hash_matches_derivation() {
    let keys: Vec<[u8; 64]> = (0..3).map(|i| [i as u8; 64]).collect();
    let vault = QuantumVault::new(2, 3, 50, keys.clone(), 1000).unwrap();

    let expected = sha3_concat(&[&keys[0], &keys[1], &keys[2], &1050i64.to_le_bytes()]);
    assert_eq!(vault.emergency_recovery_hash, expected);
}

#[test]
fn vault_three_of_five_unlock_walkthrough() {
    let keys = vec![[7u8; 64]; 5];
    let mut vault = QuantumVault::new(3, 5, 100, keys, 1000).unwrap();
    let sig = valid_signature();

    // Before the deadline every submission is rejected, valid or not.
    let result = vault.add_signature(&sig, 1099);
    assert!(matches!(result, Err(ErrorCode::TimeLockActive)));
    assert_eq!(vault.vault_state, VaultState::Locked);

    vault.add_signature(&sig, 1100).unwrap();
    assert_eq!(vault.vault_state, VaultState::PartiallyUnlocked(1));
    assert!(!vault.is_unlocked());

    vault.add_signature(&sig, 1101).unwrap();
    assert_eq!(vault.vault_state, VaultState::PartiallyUnlocked(2));

    vault.add_signature(&sig, 1102).unwrap();
    assert_eq!(vault.vault_state, VaultState::Unlocked);
    assert!(vault.is_unlocked());

    // A fourth submission hits the terminal state.
    let result = vault.add_signature(&sig, 1103);
    assert!(matches!(result, Err(ErrorCode::InvalidVaultState)));
    assert_eq!(vault.vault_state, VaultState::Unlocked);
}

#[test]
fn vault_rejects_invalid_signature_after_deadline() {
    let keys = vec![[7u8; 64]; 5];
    let mut vault = QuantumVault::new(3, 5, 100, keys, 1000).unwrap();

    let mut sig = valid_signature();
    sig.signature = vec![1u8; 10];

    let result = vault.add_signature(&sig, 1200);
    assert!(matches!(result, Err(ErrorCode::InvalidSignature)));
    assert_eq!(vault.vault_state, VaultState::Locked);
}

#[test]
fn homomorphic_add_wraps_bytes_and_spends_budget() {
    let a = HomomorphicCiphertext {
        encrypted_data: vec![1, 2, 250],
        public_parameters: [9u8; 64],
        noise_budget: 150,
    };
    let b = HomomorphicCiphertext {
        encrypted_data: vec![10, 20, 30],
        public_parameters: [9u8; 64],
        noise_budget: 120,
    };

    let sum = a.homomorphic_add(&b).unwrap();
    assert_eq!(sum.encrypted_data, vec![11, 22, 24]);
    assert_eq!(sum.public_parameters, [9u8; 64]);
    assert_eq!(sum.noise_budget, 100);
}

#[test]
fn homomorphic_add_requires_budget_on_both_sides() {
    let low = HomomorphicCiphertext {
        encrypted_data: vec![1],
        public_parameters: [0u8; 64],
        noise_budget: 100,
    };
    let high = HomomorphicCiphertext {
        encrypted_data: vec![1],
        public_parameters: [0u8; 64],
        noise_budget: 500,
    };

    assert!(matches!(low.homomorphic_add(&high), Err(ErrorCode::InsufficientNoiseBudget)));
    assert!(matches!(high.homomorphic_add(&low), Err(ErrorCode::InsufficientNoiseBudget)));
}

#[test]
fn homomorphic_scalar_multiply_wraps_and_spends_budget() {
    let c = HomomorphicCiphertext {
        encrypted_data: vec![10, 20, 30],
        public_parameters: [3u8; 64],
        noise_budget: 250,
    };

    let scaled = c.scalar_multiply(10).unwrap();
    assert_eq!(scaled.encrypted_data, vec![100, 200, 44]);
    assert_eq!(scaled.noise_budget, 150);

    let broke = HomomorphicCiphertext {
        encrypted_data: vec![1],
        public_parameters: [3u8; 64],
        noise_budget: 200,
    };
    assert!(matches!(broke.scalar_multiply(2), Err(ErrorCode::InsufficientNoiseBudget)));
}

#[test]
fn test_secret_sharing() {
    let secret = [42u8; 32];
    let shares = SecretShare::generate_shares(&secret, 3, 5);

    assert_eq!(shares.len(), 5);

    let reconstructed = SecretShare::reconstruct(&shares[0..3], 3).unwrap();
    assert_eq!(reconstructed.len(), 32);
}

#[test]
fn shares_have_unique_indices_and_hash_derived_values() {
    let secret = [13u8; 32];
    let shares = SecretShare::generate_shares(&secret, 2, 4);

    assert_eq!(shares.len(), 4);
    for (k, share) in shares.iter().enumerate() {
        assert_eq!(share.share_index, (k + 1) as u8);
        let value = sha3_concat(&[&secret, &[(k + 1) as u8], b"THRESHOLD_SHARE"]);
        assert_eq!(share.share_value, value);
        assert_eq!(share.commitment, sha3_concat(&[&value]));
    }
    for i in 0..shares.len() {
        for j in (i + 1)..shares.len() {
            assert_ne!(shares[i].share_index, shares[j].share_index);
        }
    }
}

#[test]
fn reconstruct_requires_threshold_shares() {
    let secret = [4u8; 32];
    let shares = SecretShare::generate_shares(&secret, 3, 5);

    let result = SecretShare::reconstruct(&shares[0..2], 3);
    assert!(matches!(result, Err(ErrorCode::InsufficientShares)));
}

#[test]
fn reconstruct_rejects_tampered_share() {
    let secret = [4u8; 32];
    let mut shares = SecretShare::generate_shares(&secret, 3, 5);
    shares[1].share_value[0] ^= 0xff;

    let result = SecretShare::reconstruct(&shares[0..3], 3);
    assert!(matches!(result, Err(ErrorCode::InvalidShareCommitment)));
}

#[test]
fn reconstruct_folds_first_threshold_shares() {
    let secret = [77u8; 32];
    let shares = SecretShare::generate_shares(&secret, 3, 5);

    let reconstructed = SecretShare::reconstruct(&shares[0..4], 3).unwrap();

    let mut expected = [0u8; 32];
    for (i, share) in shares.iter().take(3).enumerate() {
        for j in 0..32 {
            expected[j] ^= share.share_value[j].wrapping_mul((i + 1) as u8);
        }
    }
    assert_eq!(reconstructed, expected);
}

#[test]
fn detector_flags_quantum_rate_as_critical() {
    let mut detector = QuantumThreatDetector {
        suspicious_pattern_count: 0,
        last_detection_time: 0,
        threat_level: ThreatLevel::Normal,
    };

    let level = detector.analyze_pattern(2_000_000, 1, 555);
    assert_eq!(level, ThreatLevel::Critical);
    assert_eq!(detector.threat_level, ThreatLevel::Critical);
    assert_eq!(detector.suspicious_pattern_count, 1);
    assert_eq!(detector.last_detection_time, 555);
    assert!(detector.activate_quantum_defense());
}

#[test]
fn detector_leaves_counters_on_normal_rate() {
    let mut detector = QuantumThreatDetector {
        suspicious_pattern_count: 3,
        last_detection_time: 111,
        threat_level: ThreatLevel::Critical,
    };

    let level = detector.analyze_pattern(5, 1, 999);
    assert_eq!(level, ThreatLevel::Normal);
    assert_eq!(detector.threat_level, ThreatLevel::Normal);
    assert_eq!(detector.suspicious_pattern_count, 3);
    assert_eq!(detector.last_detection_time, 111);
    assert!(!detector.activate_quantum_defense());
}

#[test]
fn detector_threshold_boundaries() {
    let mut detector = QuantumThreatDetector {
        suspicious_pattern_count: 0,
        last_detection_time: 0,
        threat_level: ThreatLevel::Normal,
    };

    assert_eq!(detector.analyze_pattern(10_000, 1, 1), ThreatLevel::Normal);
    assert_eq!(detector.analyze_pattern(10_001, 1, 2), ThreatLevel::Elevated);
    assert_eq!(detector.analyze_pattern(100_001, 1, 3), ThreatLevel::High);
    assert_eq!(detector.analyze_pattern(1_000_001, 1, 4), ThreatLevel::Critical);
    assert_eq!(detector.analyze_pattern(2_000_000, 2, 5), ThreatLevel::High);
    assert_eq!(detector.suspicious_pattern_count, 4);
}
