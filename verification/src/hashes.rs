//! The two fixed 256-bit hash functions every derivation in this crate is
//! built from, behind trusted wrappers.
//!
//! The digests themselves are not written out as specifications: each is given
//! an uninterpreted name, a function of the input bytes alone, and every
//! contract in the crate speaks of the hashed input through that name.

use vstd::prelude::*;
use sha3::{Digest, Keccak256, Sha3_256};

verus! {

/// The SHA3-256 digest (32 bytes) of `data`, by name only.
pub uninterp spec fn sha3_256_of(data: Seq<u8>) -> Seq<u8>;

/// The Keccak-256 digest (32 bytes) of `data`, by name only.
pub uninterp spec fn keccak256_of(data: Seq<u8>) -> Seq<u8>;

/// Relies on sha3::Sha3_256 (FIPS 202): a 32-byte digest that is a function
/// of the input bytes alone.
#[verifier::external_body]
pub(crate) fn sha3_256(data: &Vec<u8>) -> (r: [u8; 32])
    ensures
        r@ == sha3_256_of(data@),
{
    let mut hasher = Sha3_256::new();
    hasher.update(data.as_slice());
    hasher.finalize().into()
}

/// Relies on sha3::Keccak256 (the pre-FIPS Keccak variant): a 32-byte digest
/// that is a function of the input bytes alone.
#[verifier::external_body]
pub(crate) fn keccak256(data: &Vec<u8>) -> (r: [u8; 32])
    ensures
        r@ == keccak256_of(data@),
{
    let mut hasher = Keccak256::new();
    hasher.update(data.as_slice());
    hasher.finalize().into()
}

} // verus!
