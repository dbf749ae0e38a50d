//! Threshold secret sharing: one 256-bit secret split into hash-derived
//! shares, each carrying a commitment to its value.
//!
//! Despite the vocabulary this is not Shamir sharing: shares are independent
//! digests of the secret, and reconstruction is a byte-wise XOR fold over
//! the first `threshold` shares — lossy, and in general not an inverse of
//! generation. The fold is preserved exactly as the protocol defines it.

use vstd::prelude::*;
use crate::byteops::{append_byte, append_bytes, bytes32_eq, zero_bytes32};
use crate::hashes::{sha3_256, sha3_256_of};
use crate::quantum::errors::ErrorCode;

verus! {

/// The domain tag `THRESHOLD_SHARE` separating share derivations.
pub open spec fn threshold_share_tag() -> Seq<u8> {
    seq![0x54u8, 0x48, 0x52, 0x45, 0x53, 0x48, 0x4f, 0x4c, 0x44, 0x5f, 0x53, 0x48, 0x41, 0x52, 0x45]
}

fn threshold_share_tag_bytes() -> (r: [u8; 15])
    ensures
        r@ == threshold_share_tag(),
{
    let r: [u8; 15] = [0x54, 0x48, 0x52, 0x45, 0x53, 0x48, 0x4f, 0x4c, 0x44, 0x5f, 0x53, 0x48, 0x41, 0x52, 0x45];
    proof {
        assert(r@ =~= threshold_share_tag());
    }
    r
}

/// The value of the share at one index.
pub open spec fn spec_share_value(secret: Seq<u8>, index: u8) -> Seq<u8> {
    sha3_256_of(secret + seq![index] + threshold_share_tag())
}

/// The commitment to a share value: its bare hash.
pub open spec fn spec_share_commitment(value: Seq<u8>) -> Seq<u8> {
    sha3_256_of(value)
}

/// The XOR fold over the first `count` shares: byte `j` accumulates
/// `value[j]` multiplied (wrapping) by the share's one-based position.
pub open spec fn spec_reconstructed(shares: Seq<SecretShare>, count: nat) -> Seq<u8>
    decreases count,
{
    if count == 0 {
        zero_bytes32()
    } else {
        let prev = spec_reconstructed(shares, (count - 1) as nat);
        let value = shares[count - 1].share_value@;
        Seq::new(32, |j: int| prev[j] ^ value[j].wrapping_mul(count as u8))
    }
}

/// One share of a split secret.
#[derive(Clone, Debug)]
pub struct SecretShare {
    /// The share's one-based index.
    pub share_index: u8,
    /// The share's 32-byte value.
    pub share_value: [u8; 32],
    /// The hash binding the value against tampering.
    pub commitment: [u8; 32],
}

impl SecretShare {
    /// Splits `secret` into `total_shares` shares indexed `1..=total_shares`,
    /// each a domain-separated digest of the secret and its index, with a
    /// commitment over the value. Generation does not depend on `threshold`;
    /// only reconstruction consumes it.
    pub fn generate_shares(secret: &[u8; 32], threshold: u8, total_shares: u8) -> (r: Vec<SecretShare>)
        ensures
            r@.len() == total_shares as int,
            forall|k: int| 0 <= k < total_shares as int ==> {
                &&& (#[trigger] r@[k]).share_index == k + 1
                &&& r@[k].share_value@ == spec_share_value(secret@, (k + 1) as u8)
                &&& r@[k].commitment@ == spec_share_commitment(
                    spec_share_value(secret@, (k + 1) as u8),
                )
            },
    {
        let mut shares: Vec<SecretShare> = Vec::new();
        let total = total_shares as usize;
        let mut k: usize = 0;
        while k < total
            invariant
                k <= total,
                total == total_shares as int,
                shares@.len() == k as int,
                forall|q: int| 0 <= q < k as int ==> {
                    &&& (#[trigger] shares@[q]).share_index == q + 1
                    &&& shares@[q].share_value@ == spec_share_value(secret@, (q + 1) as u8)
                    &&& shares@[q].commitment@ == spec_share_commitment(
                        spec_share_value(secret@, (q + 1) as u8),
                    )
                },
            decreases total - k,
        {
            let index = (k + 1) as u8;

            let mut value_input: Vec<u8> = Vec::new();
            append_bytes(&mut value_input, secret.as_slice());
            append_byte(&mut value_input, index);
            let tag = threshold_share_tag_bytes();
            append_bytes(&mut value_input, tag.as_slice());
            let share_value = sha3_256(&value_input);

            let mut commitment_input: Vec<u8> = Vec::new();
            append_bytes(&mut commitment_input, share_value.as_slice());
            let commitment = sha3_256(&commitment_input);

            shares.push(SecretShare {
                share_index: index,
                share_value,
                commitment,
            });
            k = k + 1;
        }
        shares
    }

    /// Reconstructs from the supplied shares: fails with
    /// `InsufficientShares` when fewer than `threshold` are given, then with
    /// `InvalidShareCommitment` when any share's value does not match its
    /// commitment; otherwise XOR-folds the first `threshold` shares. The
    /// fold does not in general recover the generated secret — a known
    /// correctness gap of the protocol, preserved as defined.
    pub fn reconstruct(shares: &[SecretShare], threshold: u8) -> (r: Result<[u8; 32], ErrorCode>)
        ensures
            shares@.len() < threshold as int
                ==> r == Err::<[u8; 32], ErrorCode>(ErrorCode::InsufficientShares),
            shares@.len() >= threshold as int && (exists|k: int|
                0 <= k < shares@.len() && spec_share_commitment(
                    (#[trigger] shares@[k]).share_value@,
                ) != shares@[k].commitment@)
                ==> r == Err::<[u8; 32], ErrorCode>(ErrorCode::InvalidShareCommitment),
            shares@.len() >= threshold as int && (forall|k: int|
                0 <= k < shares@.len() ==> spec_share_commitment(
                    (#[trigger] shares@[k]).share_value@,
                ) == shares@[k].commitment@) ==> ({
                &&& r matches Ok(out)
                &&& out@ == spec_reconstructed(shares@, threshold as nat)
            }),
    {
        let n = shares.len();
        if n < threshold as usize {
            return Err(ErrorCode::InsufficientShares);
        }

        let mut k: usize = 0;
        while k < n
            invariant
                k <= n,
                n == shares@.len(),
                threshold as int <= n,
                forall|q: int| 0 <= q < k as int ==> spec_share_commitment(
                    (#[trigger] shares@[q]).share_value@,
                ) == shares@[q].commitment@,
            decreases n - k,
        {
            let mut commitment_input: Vec<u8> = Vec::new();
            append_bytes(&mut commitment_input, shares[k].share_value.as_slice());
            let computed = sha3_256(&commitment_input);
            if !bytes32_eq(&computed, &shares[k].commitment) {
                proof {
                    assert(spec_share_commitment(shares@[k as int].share_value@)
                        != shares@[k as int].commitment@);
                }
                return Err(ErrorCode::InvalidShareCommitment);
            }
            k = k + 1;
        }

        let mut result = [0u8; 32];
        proof {
            assert(result@ =~= zero_bytes32());
        }

        let count = threshold as usize;
        let mut i: usize = 0;
        while i < count
            invariant
                i <= count,
                count == threshold as int,
                count <= shares@.len(),
                result@.len() == 32,
                result@ == spec_reconstructed(shares@, i as nat),
            decreases count - i,
        {
            let multiplier = (i + 1) as u8;
            let ghost prev = result@;
            let mut j: usize = 0;
            while j < 32
                invariant
                    j <= 32,
                    i < count,
                    count == threshold as int,
                    count <= shares@.len(),
                    multiplier == i + 1,
                    result@.len() == 32,
                    forall|j2: int| 0 <= j2 < j as int ==> #[trigger] result@[j2] == prev[j2]
                        ^ shares@[i as int].share_value@[j2].wrapping_mul(multiplier),
                    forall|j2: int| j as int <= j2 < 32 ==> #[trigger] result@[j2] == prev[j2],
                decreases 32 - j,
            {
                result[j] = result[j] ^ shares[i].share_value[j].wrapping_mul(multiplier);
                j = j + 1;
            }
            proof {
                assert(result@ =~= spec_reconstructed(shares@, (i + 1) as nat));
            }
            i = i + 1;
        }

        Ok(result)
    }
}

/// Law: shares whose indices run `1..=n`, as `generate_shares` builds them,
/// carry pairwise distinct indices.
pub proof fn lemma_share_indices_unique(shares: Seq<SecretShare>)
    requires
        forall|k: int| 0 <= k < shares.len() ==> (#[trigger] shares[k]).share_index == k + 1,
    ensures
        forall|k1: int, k2: int|
            0 <= k1 < shares.len() && 0 <= k2 < shares.len() && k1 != k2
                ==> (#[trigger] shares[k1]).share_index != (#[trigger] shares[k2]).share_index,
{
}

} // verus!
