//! The commitment/nullifier mixer: a deposit binds an amount and a secret to
//! a commitment; a withdrawal reveals only the nullifier hash and folds a
//! Merkle proof, never the commitment being spent.
//!
//! Double-withdrawal prevention lives in an external spent-nullifier ledger:
//! this module only defines the nullifier hash that ledger must see at most
//! once per successful withdrawal.

use vstd::prelude::*;
use crate::byteops::{append_bytes, append_u64_le, zero_bytes32};
use crate::hashes::{keccak256, keccak256_of, sha3_256, sha3_256_of};
use crate::privacy::errors::ErrorCode;

verus! {

/// The domain tag `NULLIFIER` separating nullifier-hash derivations.
pub open spec fn nullifier_tag() -> Seq<u8> {
    seq![0x4eu8, 0x55, 0x4c, 0x4c, 0x49, 0x46, 0x49, 0x45, 0x52]
}

/// The domain tag `ZK_DEPOSIT_PROOF` closing a deposit proof.
pub open spec fn zk_deposit_proof_tag() -> Seq<u8> {
    seq![0x5au8, 0x4b, 0x5f, 0x44, 0x45, 0x50, 0x4f, 0x53, 0x49, 0x54, 0x5f, 0x50, 0x52, 0x4f, 0x4f, 0x46]
}

/// The domain tag `ZK_WITHDRAWAL_PROOF` closing a withdrawal proof.
pub open spec fn zk_withdrawal_proof_tag() -> Seq<u8> {
    seq![0x5au8, 0x4b, 0x5f, 0x57, 0x49, 0x54, 0x48, 0x44, 0x52, 0x41, 0x57, 0x41, 0x4c, 0x5f, 0x50, 0x52, 0x4f, 0x4f, 0x46]
}

fn nullifier_tag_bytes() -> (r: [u8; 9])
    ensures
        r@ == nullifier_tag(),
{
    let r: [u8; 9] = [0x4e, 0x55, 0x4c, 0x4c, 0x49, 0x46, 0x49, 0x45, 0x52];
    proof {
        assert(r@ =~= nullifier_tag());
    }
    r
}

fn zk_deposit_proof_tag_bytes() -> (r: [u8; 16])
    ensures
        r@ == zk_deposit_proof_tag(),
{
    let r: [u8; 16] = [0x5a, 0x4b, 0x5f, 0x44, 0x45, 0x50, 0x4f, 0x53, 0x49, 0x54, 0x5f, 0x50, 0x52, 0x4f, 0x4f, 0x46];
    proof {
        assert(r@ =~= zk_deposit_proof_tag());
    }
    r
}

fn zk_withdrawal_proof_tag_bytes() -> (r: [u8; 19])
    ensures
        r@ == zk_withdrawal_proof_tag(),
{
    let r: [u8; 19] = [0x5a, 0x4b, 0x5f, 0x57, 0x49, 0x54, 0x48, 0x44, 0x52, 0x41, 0x57, 0x41, 0x4c, 0x5f, 0x50, 0x52, 0x4f, 0x4f, 0x46];
    proof {
        assert(r@ =~= zk_withdrawal_proof_tag());
    }
    r
}

/// The deposit commitment: binds the amount, the depositor's secret and the
/// nullifier without revealing them.
pub open spec fn spec_commitment(amount: u64, secret: Seq<u8>, nullifier: Seq<u8>) -> Seq<u8> {
    sha3_256_of(vstd::bytes::spec_u64_to_le_bytes(amount) + secret + nullifier)
}

/// The nullifier hash: derived from the nullifier alone, so it reveals
/// nothing of the amount or the secret.
pub open spec fn spec_nullifier_hash(nullifier: Seq<u8>) -> Seq<u8> {
    keccak256_of(nullifier + nullifier_tag())
}

/// The root obtained by folding the supplied siblings, in order, over a zero
/// starting node: `root = hash(root, sibling)` for each sibling.
pub open spec fn spec_merkle_fold(siblings: Seq<Seq<u8>>) -> Seq<u8>
    decreases siblings.len(),
{
    if siblings.len() == 0 {
        zero_bytes32()
    } else {
        sha3_256_of(spec_merkle_fold(siblings.drop_last()) + siblings.last())
    }
}

/// One mixer record: what a deposit or a withdrawal publishes.
#[derive(Clone, Debug)]
pub struct ZKMixer {
    /// The deposit commitment; zeroed on withdrawal records.
    pub commitment: [u8; 32],
    /// The spend-once value an external ledger checks for reuse.
    pub nullifier_hash: [u8; 32],
    /// The folded root of the commitment tree.
    pub merkle_root: [u8; 32],
    /// The simplified proof digest.
    pub proof: Vec<u8>,
}

impl ZKMixer {
    /// Deposits into the mixer: commits to `(amount, secret, nullifier)` and
    /// derives the nullifier hash for the later withdrawal. The Merkle root
    /// starts at zero — tree maintenance is the external maintainer's job.
    /// Deterministic in its inputs; never fails.
    pub fn deposit(amount: u64, secret: &[u8; 32], nullifier: &[u8; 32]) -> (r: Result<Self, ErrorCode>)
        ensures
            ({
                let commitment = spec_commitment(amount, secret@, nullifier@);
                let nullifier_hash = spec_nullifier_hash(nullifier@);
                &&& r matches Ok(m)
                &&& m.commitment@ == commitment
                &&& m.nullifier_hash@ == nullifier_hash
                &&& m.merkle_root@ == zero_bytes32()
                &&& m.proof@ == sha3_256_of(commitment + nullifier_hash + zk_deposit_proof_tag())
            }),
    {
        let mut commitment_input: Vec<u8> = Vec::new();
        append_u64_le(&mut commitment_input, amount);
        append_bytes(&mut commitment_input, secret.as_slice());
        append_bytes(&mut commitment_input, nullifier.as_slice());
        let commitment = sha3_256(&commitment_input);

        let mut nullifier_input: Vec<u8> = Vec::new();
        append_bytes(&mut nullifier_input, nullifier.as_slice());
        let n_tag = nullifier_tag_bytes();
        append_bytes(&mut nullifier_input, n_tag.as_slice());
        let nullifier_hash = keccak256(&nullifier_input);

        let merkle_root = [0u8; 32];
        proof {
            assert(merkle_root@ =~= zero_bytes32());
        }

        let mut proof_input: Vec<u8> = Vec::new();
        append_bytes(&mut proof_input, commitment.as_slice());
        append_bytes(&mut proof_input, nullifier_hash.as_slice());
        let d_tag = zk_deposit_proof_tag_bytes();
        append_bytes(&mut proof_input, d_tag.as_slice());
        let proof_digest = sha3_256(&proof_input);
        let mut proof_vec: Vec<u8> = Vec::new();
        append_bytes(&mut proof_vec, proof_digest.as_slice());

        Ok(ZKMixer {
            commitment,
            nullifier_hash,
            merkle_root,
            proof: proof_vec,
        })
    }

    /// Withdraws from the mixer: recomputes the nullifier hash from the
    /// nullifier alone, folds the supplied Merkle proof in the order given,
    /// and blanks the commitment so the spent deposit stays hidden. The
    /// external spent-nullifier ledger is the double-withdrawal enforcement
    /// point. Deterministic in its inputs; never fails.
    pub fn withdraw(
        secret: &[u8; 32],
        nullifier: &[u8; 32],
        recipient: [u8; 32],
        merkle_proof: Vec<[u8; 32]>,
    ) -> (r: Result<Self, ErrorCode>)
        ensures
            ({
                let nullifier_hash = spec_nullifier_hash(nullifier@);
                &&& r matches Ok(m)
                &&& m.commitment@ == zero_bytes32()
                &&& m.nullifier_hash@ == nullifier_hash
                &&& m.merkle_root@ == spec_merkle_fold(merkle_proof.deep_view())
                &&& m.proof@ == sha3_256_of(
                    secret@ + nullifier_hash + recipient@ + zk_withdrawal_proof_tag(),
                )
            }),
    {
        let mut nullifier_input: Vec<u8> = Vec::new();
        append_bytes(&mut nullifier_input, nullifier.as_slice());
        let n_tag = nullifier_tag_bytes();
        append_bytes(&mut nullifier_input, n_tag.as_slice());
        let nullifier_hash = keccak256(&nullifier_input);

        let merkle_root = Self::compute_merkle_root(&merkle_proof);

        let mut proof_input: Vec<u8> = Vec::new();
        append_bytes(&mut proof_input, secret.as_slice());
        append_bytes(&mut proof_input, nullifier_hash.as_slice());
        append_bytes(&mut proof_input, recipient.as_slice());
        let w_tag = zk_withdrawal_proof_tag_bytes();
        append_bytes(&mut proof_input, w_tag.as_slice());
        let proof_digest = sha3_256(&proof_input);
        let mut proof_vec: Vec<u8> = Vec::new();
        append_bytes(&mut proof_vec, proof_digest.as_slice());

        let commitment = [0u8; 32];
        proof {
            assert(commitment@ =~= zero_bytes32());
        }

        Ok(ZKMixer {
            commitment,
            nullifier_hash,
            merkle_root,
            proof: proof_vec,
        })
    }

    /// Folds the proof siblings over a zero starting node, in the order
    /// supplied — the order must match the one used when the path was added
    /// to the external tree.
    fn compute_merkle_root(proof: &Vec<[u8; 32]>) -> (r: [u8; 32])
        ensures
            r@ == spec_merkle_fold(proof.deep_view()),
    {
        let mut current = [0u8; 32];
        proof {
            assert(current@ =~= zero_bytes32());
            assert(proof.deep_view().subrange(0, 0) =~= Seq::<Seq<u8>>::empty());
        }

        let n = proof.len();
        let mut i: usize = 0;
        while i < n
            invariant
                i <= n,
                n == proof@.len(),
                proof.deep_view().len() == n,
                current@ == spec_merkle_fold(proof.deep_view().subrange(0, i as int)),
            decreases n - i,
        {
            let mut input: Vec<u8> = Vec::new();
            append_bytes(&mut input, current.as_slice());
            let sibling = proof[i];
            append_bytes(&mut input, sibling.as_slice());
            current = sha3_256(&input);
            proof {
                let prefix = proof.deep_view().subrange(0, i + 1);
                assert(prefix.drop_last() =~= proof.deep_view().subrange(0, i as int));
                assert(prefix.last() == proof.deep_view()[i as int]);
                assert(proof.deep_view()[i as int] =~= proof@[i as int]@);
            }
            i = i + 1;
        }
        proof {
            assert(proof.deep_view().subrange(0, n as int) =~= proof.deep_view());
        }
        current
    }
}

/// Law: a deposit is deterministic — any two records `deposit` returns for
/// the same `(amount, secret, nullifier)` agree on every field.
pub proof fn lemma_deposit_deterministic(a: ZKMixer, b: ZKMixer, amount: u64, secret: Seq<u8>, nullifier: Seq<u8>)
    requires
        a.commitment@ == spec_commitment(amount, secret, nullifier),
        a.nullifier_hash@ == spec_nullifier_hash(nullifier),
        a.merkle_root@ == zero_bytes32(),
        a.proof@ == sha3_256_of(
            spec_commitment(amount, secret, nullifier) + spec_nullifier_hash(nullifier)
                + zk_deposit_proof_tag(),
        ),
        b.commitment@ == spec_commitment(amount, secret, nullifier),
        b.nullifier_hash@ == spec_nullifier_hash(nullifier),
        b.merkle_root@ == zero_bytes32(),
        b.proof@ == sha3_256_of(
            spec_commitment(amount, secret, nullifier) + spec_nullifier_hash(nullifier)
                + zk_deposit_proof_tag(),
        ),
    ensures
        a.commitment@ == b.commitment@,
        a.nullifier_hash@ == b.nullifier_hash@,
        a.merkle_root@ == b.merkle_root@,
        a.proof@ == b.proof@,
{
}

} // verus!
