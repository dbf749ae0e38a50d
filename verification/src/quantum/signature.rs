//! The placeholder post-quantum signature: a record carrying a 64-byte key
//! and a byte-vector signature whose verification predicate is the length
//! check the protocol defines — a stand-in for lattice-based verification,
//! to be preserved as such.

use vstd::prelude::*;
use crate::byteops::append_bytes;
use crate::hashes::{sha3_256, sha3_256_of};
use crate::quantum::errors::ErrorCode;

verus! {

/// The domain tag `QUANTUM_RESISTANT_COMMITMENT` closing hash commitments.
pub open spec fn quantum_commitment_tag() -> Seq<u8> {
    seq![0x51u8, 0x55, 0x41, 0x4e, 0x54, 0x55, 0x4d, 0x5f, 0x52, 0x45, 0x53, 0x49, 0x53, 0x54, 0x41, 0x4e, 0x54, 0x5f, 0x43, 0x4f, 0x4d, 0x4d, 0x49, 0x54, 0x4d, 0x45, 0x4e, 0x54]
}

fn quantum_commitment_tag_bytes() -> (r: [u8; 28])
    ensures
        r@ == quantum_commitment_tag(),
{
    let r: [u8; 28] = [0x51, 0x55, 0x41, 0x4e, 0x54, 0x55, 0x4d, 0x5f, 0x52, 0x45, 0x53, 0x49, 0x53, 0x54, 0x41, 0x4e, 0x54, 0x5f, 0x43, 0x4f, 0x4d, 0x4d, 0x49, 0x54, 0x4d, 0x45, 0x4e, 0x54];
    proof {
        assert(r@ =~= quantum_commitment_tag());
    }
    r
}

/// A signature submitted towards unlocking the vault.
#[derive(Clone, Debug)]
pub struct QuantumResistantSignature {
    /// The signer's 64-byte public key.
    pub public_key: [u8; 64],
    /// The signature bytes.
    pub signature: Vec<u8>,
    /// The 32-byte hash of the signed message.
    pub message_hash: [u8; 32],
    /// When the signature was made.
    pub timestamp: i64,
    /// The signer's nonce.
    pub nonce: u64,
}

/// The verification predicate: the signature must be at least 64 bytes.
/// A placeholder for real lattice-based verification — deliberately so.
pub open spec fn spec_signature_valid(sig: QuantumResistantSignature) -> bool {
    sig.signature@.len() >= 64
}

impl QuantumResistantSignature {
    /// Verifies the signature: true exactly when it is at least 64 bytes
    /// long. The structural placeholder the protocol prescribes; never an
    /// error.
    pub fn verify(&self) -> (r: Result<bool, ErrorCode>)
        ensures
            r == Ok::<bool, ErrorCode>(spec_signature_valid(*self)),
    {
        Ok(self.signature.len() >= 64)
    }

    /// A hash-based commitment to `data`: quantum-safe because it relies on
    /// no algebraic structure.
    pub fn generate_commitment(data: &[u8]) -> (r: [u8; 32])
        ensures
            r@ == sha3_256_of(data@ + quantum_commitment_tag()),
    {
        let mut input: Vec<u8> = Vec::new();
        append_bytes(&mut input, data);
        let tag = quantum_commitment_tag_bytes();
        append_bytes(&mut input, tag.as_slice());
        sha3_256(&input)
    }
}

} // verus!
