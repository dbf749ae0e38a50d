//! Small verified helpers on byte vectors: appending, equality, and the
//! little-endian encodings the hash derivations feed on.

use vstd::prelude::*;

verus! {

/// Appends every byte of `src` to `out`, in order.
pub(crate) fn append_bytes(out: &mut Vec<u8>, src: &[u8])
    ensures
        final(out)@ == old(out)@ + src@,
{
    let mut i: usize = 0;
    while i < src.len()
        invariant
            i <= src@.len(),
            out@ == old(out)@ + src@.subrange(0, i as int),
        decreases src@.len() - i,
    {
        out.push(src[i]);
        proof {
            assert(src@.subrange(0, i + 1) =~= src@.subrange(0, i as int) + seq![src@[i as int]]);
        }
        i = i + 1;
    }
    proof {
        assert(src@.subrange(0, src@.len() as int) =~= src@);
    }
}

/// Appends one byte to `out`.
pub(crate) fn append_byte(out: &mut Vec<u8>, b: u8)
    ensures
        final(out)@ == old(out)@ + seq![b],
{
    out.push(b);
    proof {
        assert(out@ =~= old(out)@ + seq![b]);
    }
}

/// True exactly when the two 32-byte arrays hold the same bytes.
pub(crate) fn bytes32_eq(a: &[u8; 32], b: &[u8; 32]) -> (r: bool)
    ensures
        r == (a@ == b@),
{
    let mut i: usize = 0;
    while i < 32
        invariant
            i <= 32,
            forall|j: int| 0 <= j < i ==> a@[j] == b@[j],
        decreases 32 - i,
    {
        if a[i] != b[i] {
            return false;
        }
        i = i + 1;
    }
    proof {
        assert(a@ =~= b@);
    }
    true
}

/// Thirty-two zero bytes: the blank value several records start from.
pub open spec fn zero_bytes32() -> Seq<u8> {
    Seq::new(32, |i: int| 0u8)
}

/// The bit pattern of a signed 64-bit value, as an unsigned one.
pub open spec fn spec_i64_bits(x: i64) -> u64 {
    if x >= 0 {
        x as u64
    } else {
        (x + 0x1_0000_0000_0000_0000) as u64
    }
}

/// The little-endian bytes of a signed 64-bit value (two's complement).
pub open spec fn spec_i64_to_le_bytes(x: i64) -> Seq<u8> {
    vstd::bytes::spec_u64_to_le_bytes(spec_i64_bits(x))
}

/// Appends the 8 little-endian bytes of `x` to `out`.
pub(crate) fn append_u64_le(out: &mut Vec<u8>, x: u64)
    ensures
        final(out)@ == old(out)@ + vstd::bytes::spec_u64_to_le_bytes(x),
{
    let bytes = vstd::bytes::u64_to_le_bytes(x);
    append_bytes(out, bytes.as_slice());
}

/// Appends the 8 little-endian bytes of `x` (two's complement) to `out`.
pub(crate) fn append_i64_le(out: &mut Vec<u8>, x: i64)
    ensures
        final(out)@ == old(out)@ + spec_i64_to_le_bytes(x),
{
    let bits: u64 = if x >= 0 {
        x as u64
    } else {
        let wide: i128 = (x as i128) + 0x1_0000_0000_0000_0000;
        wide as u64
    };
    assert(bits == spec_i64_bits(x));
    append_u64_le(out, bits);
}

} // verus!
