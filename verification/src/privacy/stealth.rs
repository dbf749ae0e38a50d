//! Stealth one-time receiving addresses.
//!
//! A sender derives a fresh address from the recipient's master public key
//! and a private nonce; the recipient scans incoming payments with a cheap
//! one-byte view-tag check before recomputing the full derivation.

use vstd::prelude::*;
use crate::byteops::append_bytes;
use crate::hashes::{sha3_256, sha3_256_of};
use crate::privacy::errors::ErrorCode;

verus! {

/// The domain tag `EPHEMERAL_KEY` separating ephemeral-key derivations.
pub open spec fn ephemeral_key_tag() -> Seq<u8> {
    seq![0x45u8, 0x50, 0x48, 0x45, 0x4d, 0x45, 0x52, 0x41, 0x4c, 0x5f, 0x4b, 0x45, 0x59]
}

/// The domain tag `STEALTH_ADDRESS` separating address derivations.
pub open spec fn stealth_address_tag() -> Seq<u8> {
    seq![0x53u8, 0x54, 0x45, 0x41, 0x4c, 0x54, 0x48, 0x5f, 0x41, 0x44, 0x44, 0x52, 0x45, 0x53, 0x53]
}

fn ephemeral_key_tag_bytes() -> (r: [u8; 13])
    ensures
        r@ == ephemeral_key_tag(),
{
    let r: [u8; 13] = [0x45, 0x50, 0x48, 0x45, 0x4d, 0x45, 0x52, 0x41, 0x4c, 0x5f, 0x4b, 0x45, 0x59];
    proof {
        assert(r@ =~= ephemeral_key_tag());
    }
    r
}

fn stealth_address_tag_bytes() -> (r: [u8; 15])
    ensures
        r@ == stealth_address_tag(),
{
    let r: [u8; 15] = [0x53, 0x54, 0x45, 0x41, 0x4c, 0x54, 0x48, 0x5f, 0x41, 0x44, 0x44, 0x52, 0x45, 0x53, 0x53];
    proof {
        assert(r@ =~= stealth_address_tag());
    }
    r
}

/// The ephemeral key a sender derives from its private nonce.
pub open spec fn spec_ephemeral_key(nonce: Seq<u8>) -> Seq<u8> {
    sha3_256_of(nonce + ephemeral_key_tag())
}

/// The shared secret derived from a key pair, in the order hashed.
pub open spec fn spec_shared_secret(first: Seq<u8>, second: Seq<u8>) -> Seq<u8> {
    sha3_256_of(first + second)
}

/// The one-time address bound to a master public key and a shared secret.
pub open spec fn spec_stealth_address(master_pub: Seq<u8>, shared: Seq<u8>) -> Seq<u8> {
    sha3_256_of(master_pub + shared + stealth_address_tag())
}

/// What a scan returns: `None` exactly when the view tag misses the quick
/// check, else the fully recomputed address.
pub open spec fn spec_scan(master_priv: Seq<u8>, ephemeral: Seq<u8>, view_tag: u8) -> Option<Seq<u8>> {
    let quick = spec_shared_secret(master_priv, ephemeral);
    if quick[0] == view_tag {
        Some(spec_stealth_address(sha3_256_of(master_priv), quick))
    } else {
        None
    }
}

/// A one-time receiving address, produced once per payment by the sender.
#[derive(Clone, Debug)]
pub struct StealthAddress {
    /// The sender's one-time key the recipient scans against.
    pub ephemeral_pubkey: [u8; 32],
    /// The unique receiving address.
    pub stealth_address: [u8; 32],
    /// The derived secret only sender and recipient can recompute.
    pub shared_secret_hash: [u8; 32],
    /// The first byte of the shared secret: a cheap scan hint.
    pub view_tag: u8,
}

impl StealthAddress {
    /// Derives a stealth address from the recipient's master public key and
    /// the sender's private nonce. Deterministic in its inputs; never fails.
    pub fn generate(
        recipient_master_pubkey: &[u8; 32],
        sender_private_nonce: &[u8; 32],
    ) -> (r: Result<Self, ErrorCode>)
        ensures
            ({
                let eph = spec_ephemeral_key(sender_private_nonce@);
                let shared = spec_shared_secret(eph, recipient_master_pubkey@);
                &&& r matches Ok(s)
                &&& s.ephemeral_pubkey@ == eph
                &&& s.shared_secret_hash@ == shared
                &&& s.stealth_address@ == spec_stealth_address(recipient_master_pubkey@, shared)
                &&& s.view_tag == shared[0]
            }),
    {
        let mut eph_input: Vec<u8> = Vec::new();
        append_bytes(&mut eph_input, sender_private_nonce.as_slice());
        let eph_tag = ephemeral_key_tag_bytes();
        append_bytes(&mut eph_input, eph_tag.as_slice());
        let ephemeral_private = sha3_256(&eph_input);

        let mut shared_input: Vec<u8> = Vec::new();
        append_bytes(&mut shared_input, ephemeral_private.as_slice());
        append_bytes(&mut shared_input, recipient_master_pubkey.as_slice());
        let shared_secret = sha3_256(&shared_input);

        let mut addr_input: Vec<u8> = Vec::new();
        append_bytes(&mut addr_input, recipient_master_pubkey.as_slice());
        append_bytes(&mut addr_input, shared_secret.as_slice());
        let addr_tag = stealth_address_tag_bytes();
        append_bytes(&mut addr_input, addr_tag.as_slice());
        let stealth_address = sha3_256(&addr_input);

        let view_tag = shared_secret[0];

        Ok(StealthAddress {
            ephemeral_pubkey: ephemeral_private,
            stealth_address,
            shared_secret_hash: shared_secret,
            view_tag,
        })
    }

    /// Scans one candidate payment. Returns `None`, in one hash, exactly when
    /// the view tag misses; on a hit, recomputes and returns the full address.
    /// Absence of a payment is data, not an error.
    pub fn scan_for_payments(
        master_private_key: &[u8; 32],
        ephemeral_pubkey: &[u8; 32],
        view_tag: u8,
    ) -> (r: Option<[u8; 32]>)
        ensures
            r.deep_view() == spec_scan(master_private_key@, ephemeral_pubkey@, view_tag),
    {
        let mut quick_input: Vec<u8> = Vec::new();
        append_bytes(&mut quick_input, master_private_key.as_slice());
        append_bytes(&mut quick_input, ephemeral_pubkey.as_slice());
        let quick_check = sha3_256(&quick_input);

        if quick_check[0] != view_tag {
            return None;
        }

        // The full shared secret hashes the same input as the quick check.
        let shared_secret = quick_check;

        let mut master_pub_input: Vec<u8> = Vec::new();
        append_bytes(&mut master_pub_input, master_private_key.as_slice());
        let master_pubkey = sha3_256(&master_pub_input);

        let mut addr_input: Vec<u8> = Vec::new();
        append_bytes(&mut addr_input, master_pubkey.as_slice());
        append_bytes(&mut addr_input, shared_secret.as_slice());
        let addr_tag = stealth_address_tag_bytes();
        append_bytes(&mut addr_input, addr_tag.as_slice());
        let stealth_address = sha3_256(&addr_input);

        Some(stealth_address)
    }
}

/// Law: a scan with the matching master private key returns exactly the
/// address that `generate` produced, provided the master public key is the
/// hash of the master private key and both sides agree on the shared secret
/// — the agreement real key exchange would provide, which the hash-based
/// stand-in does not itself guarantee.
pub proof fn lemma_scan_recovers_generated_address(
    master_priv: Seq<u8>,
    master_pub: Seq<u8>,
    nonce: Seq<u8>,
)
    requires
        master_pub == sha3_256_of(master_priv),
        spec_shared_secret(master_priv, spec_ephemeral_key(nonce))
            == spec_shared_secret(spec_ephemeral_key(nonce), master_pub),
    ensures
        ({
            let eph = spec_ephemeral_key(nonce);
            let shared = spec_shared_secret(eph, master_pub);
            spec_scan(master_priv, eph, shared[0])
                == Some(spec_stealth_address(master_pub, shared))
        }),
{
}

} // verus!
