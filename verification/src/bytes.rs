//! Big-endian byte layout of 64-bit integers, used for the nonce and the
//! counter halves of a CTR block input.

use vstd::prelude::*;

verus! {

/// Byte `i` (0-based, most significant first) of the big-endian
/// representation of `x`.
pub open spec fn u64_be_byte(x: u64, i: int) -> u8 {
    (x >> ((56 - 8 * i) as u64)) as u8
}

/// The eight bytes of `x` in big-endian order.
pub open spec fn u64_be_seq(x: u64) -> Seq<u8> {
    Seq::new(8, |i: int| u64_be_byte(x, i))
}

/// The big-endian bytes of `x`, most significant first.
pub fn u64_to_be_bytes(x: u64) -> (r: Vec<u8>)
    ensures
        r@ == u64_be_seq(x),
{
    let mut r: Vec<u8> = Vec::new();
    r.push((x >> 56) as u8);
    r.push((x >> 48) as u8);
    r.push((x >> 40) as u8);
    r.push((x >> 32) as u8);
    r.push((x >> 24) as u8);
    r.push((x >> 16) as u8);
    r.push((x >> 8) as u8);
    r.push(x as u8);
    proof {
        assert(x as u8 == (x >> 0u64) as u8) by (bit_vector);
        assert(r@ =~= u64_be_seq(x));
    }
    r
}

} // verus!
