//! Small helpers on byte strings.

use vstd::prelude::*;

verus! {

/// The value of two bytes read as a 16-bit little-endian number.
pub open spec fn le_u16(lo: u8, hi: u8) -> int {
    lo as int + 256 * (hi as int)
}

/// Reads two bytes as a 16-bit little-endian number.
pub fn u16_from_le(lo: u8, hi: u8) -> (value: u16)
    ensures
        value as int == le_u16(lo, hi),
{
    (lo as u16) + 256 * (hi as u16)
}

/// A byte string with one bit of one byte flipped.
pub open spec fn flip_bit(bytes: Seq<u8>, index: int, bit: u8) -> Seq<u8> {
    bytes.update(index, bytes[index] ^ (1u8 << bit))
}

/// Flipping a bit of a byte string gives another byte string of the same
/// length.
pub proof fn flip_bit_differs(bytes: Seq<u8>, index: int, bit: u8)
    requires
        0 <= index < bytes.len(),
        bit < 8,
    ensures
        flip_bit(bytes, index, bit).len() == bytes.len(),
        flip_bit(bytes, index, bit)[index] != bytes[index],
        flip_bit(bytes, index, bit) != bytes,
{
    let byte = bytes[index];
    assert(byte ^ (1u8 << bit) != byte) by (bit_vector)
        requires
            bit < 8,
    ;
}

/// Compares two byte strings for equality: same length, same bytes.
pub fn bytes_equal(a: &[u8], b: &[u8]) -> (equal: bool)
    ensures
        equal == (a@ == b@),
{
    if a.len() != b.len() {
        return false;
    }
    let mut i: usize = 0;
    while i < a.len()
        invariant
            a@.len() == b@.len(),
            i <= a@.len(),
            forall|k: int| 0 <= k < i ==> a@[k] == b@[k],
        decreases a@.len() - i,
    {
        if a[i] != b[i] {
            return false;
        }
        i += 1;
    }
    assert(a@ =~= b@);
    true
}

} // verus!
