//! Confidential transactions: the amount is XOR-masked under a key derived
//! from the recipient's public key, accompanied by a range-proof stub and a
//! commitment digest, and addressed to a stealth address.
//!
//! The commitment is a Pedersen-commitment analogue, not algebraically
//! homomorphic, and the range proof is a proof-of-possession placeholder;
//! verification is the structural check the protocol defines.

use vstd::prelude::*;
use crate::byteops::{append_bytes, append_u64_le, bytes32_eq, zero_bytes32};
use crate::hashes::{sha3_256, sha3_256_of};
use crate::privacy::errors::ErrorCode;
use crate::privacy::stealth::{spec_ephemeral_key, spec_shared_secret, spec_stealth_address, StealthAddress};

verus! {

/// The domain tag `ENCRYPTION_KEY` separating keystream derivations.
pub open spec fn encryption_key_tag() -> Seq<u8> {
    seq![0x45u8, 0x4e, 0x43, 0x52, 0x59, 0x50, 0x54, 0x49, 0x4f, 0x4e, 0x5f, 0x4b, 0x45, 0x59]
}

/// The domain tag `RANGE_PROOF` closing a range-proof stub.
pub open spec fn range_proof_tag() -> Seq<u8> {
    seq![0x52u8, 0x41, 0x4e, 0x47, 0x45, 0x5f, 0x50, 0x52, 0x4f, 0x4f, 0x46]
}

/// The domain tag `PEDERSEN_COMMITMENT` closing an amount commitment.
pub open spec fn pedersen_commitment_tag() -> Seq<u8> {
    seq![0x50u8, 0x45, 0x44, 0x45, 0x52, 0x53, 0x45, 0x4e, 0x5f, 0x43, 0x4f, 0x4d, 0x4d, 0x49, 0x54, 0x4d, 0x45, 0x4e, 0x54]
}

fn encryption_key_tag_bytes() -> (r: [u8; 14])
    ensures
        r@ == encryption_key_tag(),
{
    let r: [u8; 14] = [0x45, 0x4e, 0x43, 0x52, 0x59, 0x50, 0x54, 0x49, 0x4f, 0x4e, 0x5f, 0x4b, 0x45, 0x59];
    proof {
        assert(r@ =~= encryption_key_tag());
    }
    r
}

fn range_proof_tag_bytes() -> (r: [u8; 11])
    ensures
        r@ == range_proof_tag(),
{
    let r: [u8; 11] = [0x52, 0x41, 0x4e, 0x47, 0x45, 0x5f, 0x50, 0x52, 0x4f, 0x4f, 0x46];
    proof {
        assert(r@ =~= range_proof_tag());
    }
    r
}

fn pedersen_commitment_tag_bytes() -> (r: [u8; 19])
    ensures
        r@ == pedersen_commitment_tag(),
{
    let r: [u8; 19] = [0x50, 0x45, 0x44, 0x45, 0x52, 0x53, 0x45, 0x4e, 0x5f, 0x43, 0x4f, 0x4d, 0x4d, 0x49, 0x54, 0x4d, 0x45, 0x4e, 0x54];
    proof {
        assert(r@ =~= pedersen_commitment_tag());
    }
    r
}

/// The keystream derived from the recipient's public key.
pub open spec fn spec_encryption_key(recipient_pubkey: Seq<u8>) -> Seq<u8> {
    sha3_256_of(recipient_pubkey + encryption_key_tag())
}

/// The masked amount: each little-endian amount byte XORed with the
/// keystream, the stream reused cyclically — acceptable only because the
/// amount is eight bytes against a 32-byte stream.
pub open spec fn spec_encrypted_amount(amount: u64, recipient_pubkey: Seq<u8>) -> Seq<u8> {
    let amount_bytes = vstd::bytes::spec_u64_to_le_bytes(amount);
    let key = spec_encryption_key(recipient_pubkey);
    Seq::new(amount_bytes.len(), |i: int| amount_bytes[i] ^ key[i % 32])
}

/// The range-proof stub: a digest of the amount and the blinding factor, a
/// proof-of-possession placeholder rather than a real range proof.
pub open spec fn spec_range_proof(amount: u64, blinding_factor: Seq<u8>) -> Seq<u8> {
    sha3_256_of(vstd::bytes::spec_u64_to_le_bytes(amount) + blinding_factor + range_proof_tag())
}

/// The amount commitment: a digest standing in for a Pedersen commitment;
/// it has no additive-commitment properties.
pub open spec fn spec_pedersen_commitment(amount: u64, blinding_factor: Seq<u8>) -> Seq<u8> {
    sha3_256_of(
        vstd::bytes::spec_u64_to_le_bytes(amount) + blinding_factor + pedersen_commitment_tag(),
    )
}

/// A confidential transaction record, immutable once created.
#[derive(Clone, Debug)]
pub struct ConfidentialTransaction {
    /// The amount, masked under the recipient's keystream.
    pub encrypted_amount: Vec<u8>,
    /// The range-proof stub.
    pub range_proof: Vec<u8>,
    /// The one-time stealth address the payment goes to.
    pub stealth_recipient: [u8; 32],
    /// The amount commitment.
    pub commitment: [u8; 32],
}

impl ConfidentialTransaction {
    /// Builds a confidential transaction: masks the amount, derives the
    /// range-proof stub and the commitment, and addresses it to the stealth
    /// address generated from the recipient's key and the blinding factor.
    /// Deterministic in its inputs; never fails.
    pub fn create(
        amount: u64,
        recipient_pubkey: &[u8; 32],
        blinding_factor: &[u8; 32],
    ) -> (r: Result<Self, ErrorCode>)
        ensures
            ({
                let shared = spec_shared_secret(
                    spec_ephemeral_key(blinding_factor@),
                    recipient_pubkey@,
                );
                &&& r matches Ok(t)
                &&& t.encrypted_amount@ == spec_encrypted_amount(amount, recipient_pubkey@)
                &&& t.range_proof@ == spec_range_proof(amount, blinding_factor@)
                &&& t.stealth_recipient@ == spec_stealth_address(recipient_pubkey@, shared)
                &&& t.commitment@ == spec_pedersen_commitment(amount, blinding_factor@)
            }),
    {
        let encrypted_amount = Self::encrypt_amount(amount, recipient_pubkey);

        let range_proof = Self::generate_range_proof(amount, blinding_factor);

        let stealth = match StealthAddress::generate(recipient_pubkey, blinding_factor) {
            Ok(s) => s,
            Err(e) => {
                return Err(e);
            },
        };

        let commitment = Self::pedersen_commit(amount, blinding_factor);

        Ok(ConfidentialTransaction {
            encrypted_amount,
            range_proof,
            stealth_recipient: stealth.stealth_address,
            commitment,
        })
    }

    /// Masks the little-endian amount bytes with the keystream derived from
    /// the recipient's public key, reusing the stream cyclically.
    fn encrypt_amount(amount: u64, recipient_pubkey: &[u8; 32]) -> (r: Vec<u8>)
        ensures
            r@ == spec_encrypted_amount(amount, recipient_pubkey@),
    {
        let mut key_input: Vec<u8> = Vec::new();
        append_bytes(&mut key_input, recipient_pubkey.as_slice());
        let k_tag = encryption_key_tag_bytes();
        append_bytes(&mut key_input, k_tag.as_slice());
        let key = sha3_256(&key_input);

        let amount_bytes = vstd::bytes::u64_to_le_bytes(amount);

        let mut encrypted: Vec<u8> = Vec::new();
        let n = amount_bytes.len();
        let mut i: usize = 0;
        while i < n
            invariant
                i <= n,
                n == 8,
                amount_bytes@.len() == 8,
                amount_bytes@ == vstd::bytes::spec_u64_to_le_bytes(amount),
                key@ == spec_encryption_key(recipient_pubkey@),
                encrypted@.len() == i as int,
                forall|j: int| 0 <= j < i as int
                    ==> encrypted@[j] == amount_bytes@[j] ^ key@[j % 32],
            decreases n - i,
        {
            encrypted.push(amount_bytes[i] ^ key[i % 32]);
            i = i + 1;
        }
        proof {
            assert(encrypted@ =~= spec_encrypted_amount(amount, recipient_pubkey@));
        }
        encrypted
    }

    /// Derives the range-proof stub for an amount under a blinding factor.
    fn generate_range_proof(amount: u64, blinding_factor: &[u8; 32]) -> (r: Vec<u8>)
        ensures
            r@ == spec_range_proof(amount, blinding_factor@),
    {
        let mut input: Vec<u8> = Vec::new();
        append_u64_le(&mut input, amount);
        append_bytes(&mut input, blinding_factor.as_slice());
        let tag = range_proof_tag_bytes();
        append_bytes(&mut input, tag.as_slice());
        let digest = sha3_256(&input);
        let mut out: Vec<u8> = Vec::new();
        append_bytes(&mut out, digest.as_slice());
        out
    }

    /// Derives the commitment digest standing in for a Pedersen commitment.
    fn pedersen_commit(amount: u64, blinding_factor: &[u8; 32]) -> (r: [u8; 32])
        ensures
            r@ == spec_pedersen_commitment(amount, blinding_factor@),
    {
        let mut input: Vec<u8> = Vec::new();
        append_u64_le(&mut input, amount);
        append_bytes(&mut input, blinding_factor.as_slice());
        let tag = pedersen_commitment_tag_bytes();
        append_bytes(&mut input, tag.as_slice());
        sha3_256(&input)
    }

    /// Verifies the record structurally: the range proof must be non-empty
    /// and the commitment non-zero. A deliberate simplification — this is a
    /// sanity check, not a cryptographic proof of correctness.
    pub fn verify(&self) -> (r: Result<bool, ErrorCode>)
        ensures
            r == Ok::<bool, ErrorCode>(
                self.range_proof@.len() > 0 && self.commitment@ != zero_bytes32(),
            ),
    {
        let range_valid = !self.range_proof.is_empty();

        let zero = [0u8; 32];
        proof {
            assert(zero@ =~= zero_bytes32());
        }
        let commitment_valid = !bytes32_eq(&self.commitment, &zero);

        Ok(range_valid && commitment_valid)
    }
}

} // verus!
