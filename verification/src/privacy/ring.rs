//! Ring signatures: a signature hidden among decoy keys, with a key image
//! that lets an external spent-set detect double-spends without identifying
//! the signer.
//!
//! The components are domain-separated digests, structurally identical in
//! shape at every position; verification is the structural check the
//! protocol defines, not a proof-of-knowledge check.

use vstd::prelude::*;
use crate::byteops::{append_byte, append_bytes, bytes32_eq};
use crate::hashes::{keccak256, keccak256_of, sha3_256, sha3_256_of};
use crate::privacy::errors::ErrorCode;

verus! {

/// The smallest ring the protocol accepts.
pub const MIN_RING_SIZE: u8 = 11;

/// The domain tag `KEY_IMAGE` separating key-image derivations.
pub open spec fn key_image_tag() -> Seq<u8> {
    seq![0x4bu8, 0x45, 0x59, 0x5f, 0x49, 0x4d, 0x41, 0x47, 0x45]
}

/// The marker `DECOY` hashed into every component at a decoy position.
pub open spec fn decoy_marker() -> Seq<u8> {
    seq![0x44u8, 0x45, 0x43, 0x4f, 0x59]
}

fn key_image_tag_bytes() -> (r: [u8; 9])
    ensures
        r@ == key_image_tag(),
{
    let r: [u8; 9] = [0x4b, 0x45, 0x59, 0x5f, 0x49, 0x4d, 0x41, 0x47, 0x45];
    proof {
        assert(r@ =~= key_image_tag());
    }
    r
}

fn decoy_marker_bytes() -> (r: [u8; 5])
    ensures
        r@ == decoy_marker(),
{
    let r: [u8; 5] = [0x44, 0x45, 0x43, 0x4f, 0x59];
    proof {
        assert(r@ =~= decoy_marker());
    }
    r
}

/// The key image: bound to the private key alone, so it is stable across
/// signatures by the same key.
pub open spec fn spec_key_image(private_key: Seq<u8>) -> Seq<u8> {
    keccak256_of(private_key + key_image_tag())
}

/// The public key derived from a private key.
pub open spec fn spec_public_key(private_key: Seq<u8>) -> Seq<u8> {
    sha3_256_of(private_key)
}

/// The signature component at one ring position: a digest over the message,
/// the member key, the key image and the position, closed by `trailer` —
/// the real private key at the real position, the decoy marker elsewhere.
pub open spec fn spec_component(
    message: Seq<u8>,
    member: Seq<u8>,
    key_image: Seq<u8>,
    position: u8,
    trailer: Seq<u8>,
) -> Seq<u8> {
    sha3_256_of(message + member + key_image + seq![position] + trailer)
}

/// The declared size of a ring built from `decoy_count` decoys: the count
/// plus one, reduced to the byte that stores it.
pub open spec fn spec_ring_size(decoy_count: nat) -> u8 {
    (((decoy_count + 1) % 256) as u8)
}

/// A ring signature over one message.
#[derive(Clone, Debug)]
pub struct RingSignature {
    /// The public keys the signer hides among, real key included.
    pub ring_members: Vec<[u8; 32]>,
    /// The double-spend detector derived from the signer's private key.
    pub key_image: [u8; 32],
    /// One component per ring position.
    pub signature_components: Vec<[u8; 32]>,
    /// The declared number of ring positions.
    pub ring_size: u8,
}

impl RingSignature {
    /// Signs `message` with the real key hidden at the middle position among
    /// the decoys. Fails exactly when the ring would be smaller than
    /// `MIN_RING_SIZE`. The real position is fixed at half the ring size —
    /// deterministic placement, a traceability weakness the protocol keeps;
    /// true anonymity would randomize it.
    pub fn sign(
        message: &[u8],
        real_private_key: &[u8; 32],
        decoy_public_keys: Vec<[u8; 32]>,
    ) -> (r: Result<Self, ErrorCode>)
        ensures
            ({
                let n = spec_ring_size(decoy_public_keys@.len());
                let img = spec_key_image(real_private_key@);
                let real_pos = n / 2;
                if n < MIN_RING_SIZE {
                    r == Err::<RingSignature, ErrorCode>(ErrorCode::RingTooSmall)
                } else {
                    &&& r matches Ok(s)
                    &&& s.ring_size == n
                    &&& s.key_image@ == img
                    &&& s.ring_members@.len() == decoy_public_keys@.len() + 1
                    &&& s.ring_members@[real_pos as int]@ == spec_public_key(real_private_key@)
                    &&& forall|j: int| 0 <= j < real_pos as int
                        ==> s.ring_members@[j] == decoy_public_keys@[j]
                    &&& forall|j: int| (real_pos as int) < j && j < s.ring_members@.len()
                        ==> s.ring_members@[j] == decoy_public_keys@[j - 1]
                    &&& s.signature_components@.len() == n as int
                    &&& forall|i: int| 0 <= i < n as int
                        ==> #[trigger] s.signature_components@[i]@ == spec_component(
                            message@,
                            s.ring_members@[i]@,
                            img,
                            i as u8,
                            if i == real_pos as int { real_private_key@ } else { decoy_marker() },
                        )
                }
            }),
    {
        let decoy_count = decoy_public_keys.len();
        let truncated: u8 = (decoy_count % 256) as u8;
        let ring_size: u8 = truncated.wrapping_add(1);
        proof {
            assert((decoy_count as nat % 256 + 1) % 256 == (decoy_count as nat + 1) % 256)
                by (nonlinear_arith);
        }
        if ring_size < MIN_RING_SIZE {
            return Err(ErrorCode::RingTooSmall);
        }

        let mut img_input: Vec<u8> = Vec::new();
        append_bytes(&mut img_input, real_private_key.as_slice());
        let img_tag = key_image_tag_bytes();
        append_bytes(&mut img_input, img_tag.as_slice());
        let key_image = keccak256(&img_input);

        let mut pub_input: Vec<u8> = Vec::new();
        append_bytes(&mut pub_input, real_private_key.as_slice());
        let real_pubkey = sha3_256(&pub_input);

        let real_position = (ring_size / 2) as usize;
        let mut ring_members = decoy_public_keys;
        ring_members.insert(real_position, real_pubkey);

        let mut signature_components: Vec<[u8; 32]> = Vec::new();
        let mut i: u8 = 0;
        while i < ring_size
            invariant
                i <= ring_size,
                ring_size == spec_ring_size(decoy_count as nat),
                MIN_RING_SIZE <= ring_size,
                real_position == ring_size as int / 2,
                real_position < ring_members@.len(),
                ring_members@.len() == decoy_count + 1,
                key_image@ == spec_key_image(real_private_key@),
                real_pubkey@ == spec_public_key(real_private_key@),
                signature_components@.len() == i as int,
                forall|j: int| 0 <= j < i as int
                    ==> #[trigger] signature_components@[j]@ == spec_component(
                        message@,
                        ring_members@[j]@,
                        key_image@,
                        j as u8,
                        if j == real_position as int { real_private_key@ } else { decoy_marker() },
                    ),
            decreases ring_size - i,
        {
            let mut comp_input: Vec<u8> = Vec::new();
            append_bytes(&mut comp_input, message);
            let member = ring_members[i as usize];
            append_bytes(&mut comp_input, member.as_slice());
            append_bytes(&mut comp_input, key_image.as_slice());
            append_byte(&mut comp_input, i);
            if (i as usize) == real_position {
                append_bytes(&mut comp_input, real_private_key.as_slice());
            } else {
                let marker = decoy_marker_bytes();
                append_bytes(&mut comp_input, marker.as_slice());
            }
            let comp = sha3_256(&comp_input);
            signature_components.push(comp);
            i = i + 1;
        }

        Ok(RingSignature {
            ring_members,
            key_image,
            signature_components,
            ring_size,
        })
    }

    /// Verifies the ring structurally: the declared size must reach
    /// `MIN_RING_SIZE` and match the member list. Each component is a fixed
    /// 32-byte digest, so the per-position length check the protocol
    /// prescribes always passes; this is a structural sanity check, not a
    /// proof-of-knowledge check.
    pub fn verify(&self, message: &[u8]) -> (r: Result<bool, ErrorCode>)
        ensures
            self.ring_size < MIN_RING_SIZE
                ==> r == Err::<bool, ErrorCode>(ErrorCode::RingTooSmall),
            self.ring_size >= MIN_RING_SIZE && self.ring_members@.len() != self.ring_size as int
                ==> r == Err::<bool, ErrorCode>(ErrorCode::InvalidRingSize),
            self.ring_size >= MIN_RING_SIZE && self.ring_members@.len() == self.ring_size as int
                ==> r == Ok::<bool, ErrorCode>(true),
    {
        if self.ring_size < MIN_RING_SIZE {
            return Err(ErrorCode::RingTooSmall);
        }
        if self.ring_members.len() != self.ring_size as usize {
            return Err(ErrorCode::InvalidRingSize);
        }
        Ok(true)
    }

    /// Pure membership test of this signature's key image against an
    /// externally supplied spent set: true exactly when the image is present.
    /// The engine holds no spent-set state of its own.
    pub fn is_key_image_spent(&self, spent_images: &[[u8; 32]]) -> (r: bool)
        ensures
            r == exists|j: int|
                0 <= j < spent_images@.len() && spent_images@[j]@ == self.key_image@,
    {
        let n = spent_images.len();
        let mut i: usize = 0;
        while i < n
            invariant
                i <= n,
                n == spent_images@.len(),
                forall|j: int| 0 <= j < i as int ==> spent_images@[j]@ != self.key_image@,
            decreases n - i,
        {
            if bytes32_eq(&spent_images[i], &self.key_image) {
                return true;
            }
            i = i + 1;
        }
        false
    }
}

/// Law: a signature as `sign` builds it from ten to 254 decoys always passes
/// `verify`'s structural checks — its declared size reaches `MIN_RING_SIZE`
/// and matches its member list, so `verify` returns `Ok(true)` on any
/// message.
pub proof fn lemma_signed_ring_verifies(sig: RingSignature, decoy_count: nat)
    requires
        10 <= decoy_count <= 254,
        sig.ring_size == spec_ring_size(decoy_count),
        sig.ring_members@.len() == decoy_count + 1,
    ensures
        MIN_RING_SIZE <= sig.ring_size,
        sig.ring_members@.len() == sig.ring_size as int,
{
}

} // verus!
