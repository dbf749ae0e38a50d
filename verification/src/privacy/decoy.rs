//! Decoy routing: one real multi-hop path hidden among structurally
//! identical decoy paths, for traffic-analysis resistance.
//!
//! Hop addresses are deterministic pseudo-random derivations — predictable
//! by design here, an explicit weakness the protocol keeps — and the real
//! path sits at the fixed middle index; true anonymity would randomize it.

use vstd::prelude::*;
use crate::byteops::{append_byte, append_bytes, append_u64_le};
use crate::hashes::{sha3_256, sha3_256_of};
use crate::privacy::errors::ErrorCode;

verus! {

/// The fewest decoy paths the router accepts.
pub const MIN_DECOYS: u8 = 10;

/// The domain tag `RANDOM_PUBKEY` separating synthetic hop addresses.
pub open spec fn random_pubkey_tag() -> Seq<u8> {
    seq![0x52u8, 0x41, 0x4e, 0x44, 0x4f, 0x4d, 0x5f, 0x50, 0x55, 0x42, 0x4b, 0x45, 0x59]
}

fn random_pubkey_tag_bytes() -> (r: [u8; 13])
    ensures
        r@ == random_pubkey_tag(),
{
    let r: [u8; 13] = [0x52, 0x41, 0x4e, 0x44, 0x4f, 0x4d, 0x5f, 0x50, 0x55, 0x42, 0x4b, 0x45, 0x59];
    proof {
        assert(r@ =~= random_pubkey_tag());
    }
    r
}

/// The synthetic address derived from a one-byte seed: deterministic, not
/// cryptographically unpredictable.
pub open spec fn spec_random_pubkey(seed: u8) -> Seq<u8> {
    sha3_256_of(seq![seed] + random_pubkey_tag())
}

/// The masked per-hop amount attached for later traffic shaping.
pub open spec fn spec_hop_amount(amount: u64, hop: u8) -> Seq<u8> {
    sha3_256_of(vstd::bytes::spec_u64_to_le_bytes(amount) + seq![hop])
}

/// One transaction path: ordered hops, each with a masked amount and a
/// synthetic timing delay.
#[derive(Clone, Debug)]
pub struct TransactionPath {
    /// The hop addresses, ending at the path's recipient.
    pub hops: Vec<[u8; 32]>,
    /// One masked amount per hop.
    pub encrypted_amounts: Vec<Vec<u8>>,
    /// One monotonically increasing delay per hop, in time units.
    pub timing_delays: Vec<i64>,
}

/// What a well-formed path to `recipient` with `rounds` hops holds: every
/// hop but the last is a seeded synthetic address, the last is the
/// recipient, amounts are the per-hop masks and the delay of hop `i` is
/// `(i + 1) * 2`.
pub open spec fn spec_path_wf(
    path: TransactionPath,
    recipient: Seq<u8>,
    amount: u64,
    rounds: u8,
) -> bool {
    &&& path.hops@.len() == rounds as int
    &&& forall|i: int| 0 <= i < rounds as int
        ==> #[trigger] path.hops@[i]@ == if i + 1 == rounds as int {
            recipient
        } else {
            spec_random_pubkey(i as u8)
        }
    &&& path.encrypted_amounts@.len() == rounds as int
    &&& forall|i: int| 0 <= i < rounds as int
        ==> #[trigger] path.encrypted_amounts@[i]@ == spec_hop_amount(amount, i as u8)
    &&& path.timing_delays@.len() == rounds as int
    &&& forall|i: int| 0 <= i < rounds as int
        ==> #[trigger] path.timing_delays@[i] == (i + 1) * 2
}

/// A bundle of one real and `num_decoys` decoy paths.
#[derive(Clone, Debug)]
pub struct DecoyNetwork {
    /// Where the real path sits — fixed at half the decoy count.
    pub real_path_index: u8,
    /// All paths, the real one indistinguishable in structure.
    pub decoy_paths: Vec<TransactionPath>,
    /// Hops per path.
    pub mixing_rounds: u8,
}

impl DecoyNetwork {
    /// Builds `num_decoys + 1` paths of `mixing_rounds` hops each; the path
    /// at the fixed middle index leads to the real recipient, every other
    /// path to a seeded synthetic address. Fails exactly when fewer than
    /// `MIN_DECOYS` decoys are requested.
    pub fn create(
        real_recipient: [u8; 32],
        amount: u64,
        num_decoys: u8,
        mixing_rounds: u8,
    ) -> (r: Result<Self, ErrorCode>)
        ensures
            num_decoys < MIN_DECOYS
                ==> r == Err::<DecoyNetwork, ErrorCode>(ErrorCode::InsufficientDecoys),
            num_decoys >= MIN_DECOYS ==> ({
                let real_pos = num_decoys / 2;
                &&& r matches Ok(net)
                &&& net.real_path_index == real_pos
                &&& net.mixing_rounds == mixing_rounds
                &&& net.decoy_paths@.len() == num_decoys as int + 1
                &&& forall|p: int| 0 <= p < num_decoys as int + 1
                    ==> spec_path_wf(
                        #[trigger] net.decoy_paths@[p],
                        if p == real_pos as int {
                            real_recipient@
                        } else {
                            spec_random_pubkey(p as u8)
                        },
                        amount,
                        mixing_rounds,
                    )
            }),
    {
        if num_decoys < MIN_DECOYS {
            return Err(ErrorCode::InsufficientDecoys);
        }

        let mut decoy_paths: Vec<TransactionPath> = Vec::new();
        let real_path_index = num_decoys / 2;

        let path_count = num_decoys as usize + 1;
        let mut p: usize = 0;
        while p < path_count
            invariant
                p <= path_count,
                path_count == num_decoys as int + 1,
                real_path_index == num_decoys / 2,
                decoy_paths@.len() == p as int,
                forall|q: int| 0 <= q < p as int
                    ==> spec_path_wf(
                        #[trigger] decoy_paths@[q],
                        if q == real_path_index as int {
                            real_recipient@
                        } else {
                            spec_random_pubkey(q as u8)
                        },
                        amount,
                        mixing_rounds,
                    ),
            decreases path_count - p,
        {
            let recipient = if p == real_path_index as usize {
                real_recipient
            } else {
                Self::random_pubkey(p as u8)
            };
            let path = Self::generate_path(recipient, amount, mixing_rounds);
            decoy_paths.push(path);
            p = p + 1;
        }

        Ok(DecoyNetwork {
            real_path_index,
            decoy_paths,
            mixing_rounds,
        })
    }

    /// Builds one path: `rounds` hops ending at `final_recipient`, each hop
    /// carrying its masked amount and its synthetic delay.
    fn generate_path(final_recipient: [u8; 32], amount: u64, rounds: u8) -> (r: TransactionPath)
        ensures
            spec_path_wf(r, final_recipient@, amount, rounds),
    {
        let mut hops: Vec<[u8; 32]> = Vec::new();
        let mut encrypted_amounts: Vec<Vec<u8>> = Vec::new();
        let mut timing_delays: Vec<i64> = Vec::new();

        let mut i: u8 = 0;
        while i < rounds
            invariant
                i <= rounds,
                hops@.len() == i as int,
                forall|j: int| 0 <= j < i as int
                    ==> #[trigger] hops@[j]@ == if j + 1 == rounds as int {
                        final_recipient@
                    } else {
                        spec_random_pubkey(j as u8)
                    },
                encrypted_amounts@.len() == i as int,
                forall|j: int| 0 <= j < i as int
                    ==> #[trigger] encrypted_amounts@[j]@ == spec_hop_amount(amount, j as u8),
                timing_delays@.len() == i as int,
                forall|j: int| 0 <= j < i as int
                    ==> #[trigger] timing_delays@[j] == (j + 1) * 2,
            decreases rounds - i,
        {
            let hop = if i + 1 == rounds {
                final_recipient
            } else {
                Self::random_pubkey(i)
            };
            hops.push(hop);

            let mut amount_input: Vec<u8> = Vec::new();
            append_u64_le(&mut amount_input, amount);
            append_byte(&mut amount_input, i);
            let masked = sha3_256(&amount_input);
            let mut masked_vec: Vec<u8> = Vec::new();
            append_bytes(&mut masked_vec, masked.as_slice());
            encrypted_amounts.push(masked_vec);

            timing_delays.push((i as i64 + 1) * 2);

            i = i + 1;
        }

        TransactionPath {
            hops,
            encrypted_amounts,
            timing_delays,
        }
    }

    /// Derives the synthetic address for one seed.
    fn random_pubkey(seed: u8) -> (r: [u8; 32])
        ensures
            r@ == spec_random_pubkey(seed),
    {
        let mut input: Vec<u8> = Vec::new();
        append_byte(&mut input, seed);
        let tag = random_pubkey_tag_bytes();
        append_bytes(&mut input, tag.as_slice());
        sha3_256(&input)
    }
}

} // verus!
