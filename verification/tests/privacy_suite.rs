//! Tests for the privacy half: stealth addresses, ring signatures, the
//! mixer, confidential transactions and decoy routing. Digest expectations
//! are recomputed directly with the sha3 crate, so a wrapper that altered or
//! passed through its input would be caught.

use sha3::{Digest, Keccak256, Sha3_256};
use solguard_core::privacy::errors::ErrorCode;
use solguard_core::{ConfidentialTransaction, DecoyNetwork, RingSignature, StealthAddress, ZKMixer};

fn sha3_concat(parts: &[&[u8]]) -> [u8; 32] {
    let mut hasher = Sha3_256::new();
    for part in parts {
        hasher.update(part);
    }
    hasher.finalize().into()
}

fn keccak_concat(parts: &[&[u8]]) -> [u8; 32] {
    let mut hasher = Keccak256::new();
    for part in parts {
        hasher.update(part);
    }
    hasher.finalize().into()
}

#[test]
fn test_stealth_address() {
    let recipient_master = [1u8; 32];
    let sender_nonce = [2u8; 32];

    let stealth = StealthAddress::generate(&recipient_master, &sender_nonce).unwrap();
    assert_ne!(stealth.stealth_address, [0u8; 32]);
}

#[test]
fn stealth_generate_matches_hash_derivation() {
    let recipient_master = [7u8; 32];
    let sender_nonce = [9u8; 32];

    let stealth = StealthAddress::generate(&recipient_master, &sender_nonce).unwrap();

    let ephemeral = sha3_concat(&[&sender_nonce, b"EPHEMERAL_KEY"]);
    let shared = sha3_concat(&[&ephemeral, &recipient_master]);
    let address = sha3_concat(&[&recipient_master, &shared, b"STEALTH_ADDRESS"]);

    assert_eq!(stealth.ephemeral_pubkey, ephemeral);
    assert_eq!(stealth.shared_secret_hash, shared);
    assert_eq!(stealth.stealth_address, address);
    assert_eq!(stealth.view_tag, shared[0]);
}

#[test]
fn stealth_generate_is_deterministic() {
    let recipient_master = [3u8; 32];
    let sender_nonce = [4u8; 32];

    let a = StealthAddress::generate(&recipient_master, &sender_nonce).unwrap();
    let b = StealthAddress::generate(&recipient_master, &sender_nonce).unwrap();

    assert_eq!(a.ephemeral_pubkey, b.ephemeral_pubkey);
    assert_eq!(a.stealth_address, b.stealth_address);
    assert_eq!(a.shared_secret_hash, b.shared_secret_hash);
    assert_eq!(a.view_tag, b.view_tag);
}

#[test]
fn stealth_scan_hits_on_matching_view_tag() {
    let master_private = [11u8; 32];
    let ephemeral = [12u8; 32];

    let shared = sha3_concat(&[&master_private, &ephemeral]);
    let master_public = sha3_concat(&[&master_private]);
    let expected = sha3_concat(&[&master_public, &shared, b"STEALTH_ADDRESS"]);

    let found = StealthAddress::scan_for_payments(&master_private, &ephemeral, shared[0]);
    assert_eq!(found, Some(expected));
}

#[test]
fn stealth_scan_misses_on_wrong_view_tag() {
    let master_private = [11u8; 32];
    let ephemeral = [12u8; 32];

    let shared = sha3_concat(&[&master_private, &ephemeral]);
    let wrong_tag = shared[0].wrapping_add(1);

    let found = StealthAddress::scan_for_payments(&master_private, &ephemeral, wrong_tag);
    assert_eq!(found, None);
}

#[test]
fn test_ring_signature() {
    let message = b"secret transaction";
    let real_key = [42u8; 32];
    let decoys: Vec<[u8; 32]> = (0..10).map(|i| [i; 32]).collect();

    let ring_sig = RingSignature::sign(message, &real_key, decoys).unwrap();
    assert!(ring_sig.verify(message).unwrap());
    assert_eq!(ring_sig.ring_size, 11);
}

#[test]
fn ring_sign_rejects_small_ring() {
    let message = b"msg";
    let real_key = [1u8; 32];
    let decoys: Vec<[u8; 32]> = (0..9).map(|i| [i; 32]).collect();

    let result = RingSignature::sign(message, &real_key, decoys);
    assert!(matches!(result, Err(ErrorCode::RingTooSmall)));
}

#[test]
fn ring_sign_places_real_key_in_middle() {
    let message = b"placement";
    let real_key = [42u8; 32];
    let decoys: Vec<[u8; 32]> = (0..10).map(|i| [i; 32]).collect();

    let ring_sig = RingSignature::sign(message, &real_key, decoys.clone()).unwrap();

    let real_pubkey = sha3_concat(&[&real_key]);
    let key_image = keccak_concat(&[&real_key, b"KEY_IMAGE"]);

    assert_eq!(ring_sig.key_image, key_image);
    assert_eq!(ring_sig.ring_members.len(), 11);
    assert_eq!(ring_sig.ring_members[5], real_pubkey);
    for j in 0..5 {
        assert_eq!(ring_sig.ring_members[j], decoys[j]);
    }
    for j in 6..11 {
        assert_eq!(ring_sig.ring_members[j], decoys[j - 1]);
    }

    assert_eq!(ring_sig.signature_components.len(), 11);
    for i in 0..11u8 {
        let trailer: &[u8] = if i == 5 { &real_key } else { b"DECOY" };
        let expected = sha3_concat(&[
            message,
            &ring_sig.ring_members[i as usize],
            &key_image,
            &[i],
            trailer,
        ]);
        assert_eq!(ring_sig.signature_components[i as usize], expected);
    }
}

#[test]
fn ring_verify_rejects_member_count_mismatch() {
    let message = b"mismatch";
    let real_key = [8u8; 32];
    let decoys: Vec<[u8; 32]> = (0..10).map(|i| [i; 32]).collect();

    let mut ring_sig = RingSignature::sign(message, &real_key, decoys).unwrap();
    ring_sig.ring_members.pop();

    let result = ring_sig.verify(message);
    assert!(matches!(result, Err(ErrorCode::InvalidRingSize)));
}

#[test]
fn key_image_spent_iff_in_supplied_set() {
    let message = b"spend";
    let real_key = [21u8; 32];
    let decoys: Vec<[u8; 32]> = (0..10).map(|i| [i; 32]).collect();

    let ring_sig = RingSignature::sign(message, &real_key, decoys).unwrap();

    let empty: Vec<[u8; 32]> = Vec::new();
    assert!(!ring_sig.is_key_image_spent(&empty));

    let others = vec![[1u8; 32], [2u8; 32]];
    assert!(!ring_sig.is_key_image_spent(&others));

    let spent = vec![[1u8; 32], ring_sig.key_image, [2u8; 32]];
    assert!(ring_sig.is_key_image_spent(&spent));
}

#[test]
fn key_image_is_stable_across_messages() {
    let real_key = [33u8; 32];
    let decoys: Vec<[u8; 32]> = (0..10).map(|i| [i; 32]).collect();

    let a = RingSignature::sign(b"first", &real_key, decoys.clone()).unwrap();
    let b = RingSignature::sign(b"second", &real_key, decoys).unwrap();
    assert_eq!(a.key_image, b.key_image);
}

#[test]
fn test_zk_mixer() {
    let amount = 1000u64;
    let secret = [99u8; 32];
    let nullifier = [88u8; 32];

    let deposit = ZKMixer::deposit(amount, &secret, &nullifier).unwrap();
    assert_ne!(deposit.commitment, [0u8; 32]);
    assert_ne!(deposit.nullifier_hash, [0u8; 32]);
}

#[test]
fn mixer_deposit_matches_hash_derivation() {
    let amount = 5000u64;
    let secret = [5u8; 32];
    let nullifier = [6u8; 32];

    let deposit = ZKMixer::deposit(amount, &secret, &nullifier).unwrap();

    let commitment = sha3_concat(&[&amount.to_le_bytes(), &secret, &nullifier]);
    let nullifier_hash = keccak_concat(&[&nullifier, b"NULLIFIER"]);
    let proof = sha3_concat(&[&commitment, &nullifier_hash, b"ZK_DEPOSIT_PROOF"]);

    assert_eq!(deposit.commitment, commitment);
    assert_eq!(deposit.nullifier_hash, nullifier_hash);
    assert_eq!(deposit.merkle_root, [0u8; 32]);
    assert_eq!(deposit.proof, proof.to_vec());
}

#[test]
fn mixer_deposit_is_deterministic() {
    let amount = 777u64;
    let secret = [14u8; 32];
    let nullifier = [15u8; 32];

    let a = ZKMixer::deposit(amount, &secret, &nullifier).unwrap();
    let b = ZKMixer::deposit(amount, &secret, &nullifier).unwrap();
    assert_eq!(a.commitment, b.commitment);
    assert_eq!(a.nullifier_hash, b.nullifier_hash);
    assert_eq!(a.merkle_root, b.merkle_root);
    assert_eq!(a.proof, b.proof);
}

#[test]
fn mixer_nullifier_hashes_do_not_collide() {
    let amount = 1u64;
    let secret = [0u8; 32];

    let mut hashes: Vec<[u8; 32]> = Vec::new();
    for i in 0..128u32 {
        let mut nullifier = [0u8; 32];
        nullifier[0] = (i & 0xff) as u8;
        nullifier[1] = (i >> 8) as u8;
        nullifier[2] = 0xA5;
        let deposit = ZKMixer::deposit(amount, &secret, &nullifier).unwrap();
        hashes.push(deposit.nullifier_hash);
    }
    for i in 0..hashes.len() {
        for j in (i + 1)..hashes.len() {
            assert_ne!(hashes[i], hashes[j]);
        }
    }
}

#[test]
fn mixer_withdraw_folds_proof_and_hides_commitment() {
    let secret = [20u8; 32];
    let nullifier = [21u8; 32];
    let recipient = [22u8; 32];
    let sibling_a = [23u8; 32];
    let sibling_b = [24u8; 32];

    let record =
        ZKMixer::withdraw(&secret, &nullifier, recipient, vec![sibling_a, sibling_b]).unwrap();

    let nullifier_hash = keccak_concat(&[&nullifier, b"NULLIFIER"]);
    let step_one = sha3_concat(&[&[0u8; 32], &sibling_a]);
    let root = sha3_concat(&[&step_one, &sibling_b]);
    let proof = sha3_concat(&[&secret, &nullifier_hash, &recipient, b"ZK_WITHDRAWAL_PROOF"]);

    assert_eq!(record.commitment, [0u8; 32]);
    assert_eq!(record.nullifier_hash, nullifier_hash);
    assert_eq!(record.merkle_root, root);
    assert_eq!(record.proof, proof.to_vec());
}

#[test]
fn mixer_withdraw_nullifier_hash_matches_deposit() {
    let secret = [30u8; 32];
    let nullifier = [31u8; 32];

    let deposit = ZKMixer::deposit(123, &secret, &nullifier).unwrap();
    let withdrawal = ZKMixer::withdraw(&secret, &nullifier, [1u8; 32], Vec::new()).unwrap();
    assert_eq!(deposit.nullifier_hash, withdrawal.nullifier_hash);
}

#[test]
fn confidential_create_matches_hash_derivation() {
    let amount = 90_000u64;
    let recipient = [40u8; 32];
    let blinding = [41u8; 32];

    let tx = ConfidentialTransaction::create(amount, &recipient, &blinding).unwrap();

    let key = sha3_concat(&[&recipient, b"ENCRYPTION_KEY"]);
    let amount_bytes = amount.to_le_bytes();
    let expected_encrypted: Vec<u8> =
        amount_bytes.iter().enumerate().map(|(i, b)| b ^ key[i % 32]).collect();
    let range_proof = sha3_concat(&[&amount_bytes, &blinding, b"RANGE_PROOF"]);
    let commitment = sha3_concat(&[&amount_bytes, &blinding, b"PEDERSEN_COMMITMENT"]);
    let stealth = StealthAddress::generate(&recipient, &blinding).unwrap();

    assert_eq!(tx.encrypted_amount, expected_encrypted);
    assert_eq!(tx.range_proof, range_proof.to_vec());
    assert_eq!(tx.commitment, commitment);
    assert_eq!(tx.stealth_recipient, stealth.stealth_address);
}

#[test]
fn confidential_amount_decrypts_back() {
    let amount = 123_456_789u64;
    let recipient = [50u8; 32];
    let blinding = [51u8; 32];

    let tx = ConfidentialTransaction::create(amount, &recipient, &blinding).unwrap();

    let key = sha3_concat(&[&recipient, b"ENCRYPTION_KEY"]);
    let mut decrypted = [0u8; 8];
    for (i, b) in tx.encrypted_amount.iter().enumerate() {
        decrypted[i] = b ^ key[i % 32];
    }
    assert_eq!(u64::from_le_bytes(decrypted), amount);
}

#[test]
fn confidential_verify_accepts_created_transaction() {
    let tx = ConfidentialTransaction::create(42, &[60u8; 32], &[61u8; 32]).unwrap();
    assert!(tx.verify().unwrap());
}

#[test]
fn confidential_verify_rejects_empty_proof_or_zero_commitment() {
    let mut tx = ConfidentialTransaction::create(42, &[60u8; 32], &[61u8; 32]).unwrap();
    tx.range_proof = Vec::new();
    assert!(!tx.verify().unwrap());

    let mut tx = ConfidentialTransaction::create(42, &[60u8; 32], &[61u8; 32]).unwrap();
    tx.commitment = [0u8; 32];
    assert!(!tx.verify().unwrap());
}

#[test]
fn decoy_create_rejects_insufficient_decoys() {
    let result = DecoyNetwork::create([1u8; 32], 500, 9, 3);
    assert!(matches!(result, Err(ErrorCode::InsufficientDecoys)));
}

#[test]
fn decoy_network_routes_real_path_through_middle() {
    let recipient = [70u8; 32];
    let network = DecoyNetwork::create(recipient, 500, 10, 3).unwrap();

    assert_eq!(network.real_path_index, 5);
    assert_eq!(network.mixing_rounds, 3);
    assert_eq!(network.decoy_paths.len(), 11);

    let real_path = &network.decoy_paths[5];
    assert_eq!(real_path.hops.len(), 3);
    assert_eq!(real_path.hops[2], recipient);

    let amount_bytes = 500u64.to_le_bytes();
    for (p, path) in network.decoy_paths.iter().enumerate() {
        assert_eq!(path.hops.len(), 3);
        assert_eq!(path.encrypted_amounts.len(), 3);
        assert_eq!(path.timing_delays, vec![2, 4, 6]);
        for (i, hop) in path.hops.iter().enumerate() {
            let expected = if i == 2 {
                if p == 5 {
                    recipient
                } else {
                    sha3_concat(&[&[p as u8], b"RANDOM_PUBKEY"])
                }
            } else {
                sha3_concat(&[&[i as u8], b"RANDOM_PUBKEY"])
            };
            assert_eq!(*hop, expected);
        }
        for (i, masked) in path.encrypted_amounts.iter().enumerate() {
            let expected = sha3_concat(&[&amount_bytes, &[i as u8]]);
            assert_eq!(*masked, expected.to_vec());
        }
    }
}
