//! Big-endian integers as they appear on the wire.
use vstd::prelude::*;

verus! {

/// The value of four bytes read as a big-endian unsigned 32-bit integer.
pub open spec fn be_u32(b0: u8, b1: u8, b2: u8, b3: u8) -> u32 {
    ((b0 as u32) << 24u32) | ((b1 as u32) << 16u32) | ((b2 as u32) << 8u32) | (b3 as u32)
}

/// The first four bytes of `b` read as a big-endian unsigned 32-bit integer.
pub open spec fn be_u32_at(b: Seq<u8>, i: int) -> u32
    recommends
        0 <= i && i + 4 <= b.len(),
{
    be_u32(b[i], b[i + 1], b[i + 2], b[i + 3])
}

/// The four big-endian bytes of `v`.
pub open spec fn u32_be_bytes(v: u32) -> Seq<u8> {
    seq![(v >> 24u32) as u8, (v >> 16u32) as u8, (v >> 8u32) as u8, v as u8]
}

/// Writing a value and reading it back gives the value.
pub proof fn lemma_be_u32_round_trip(v: u32)
    ensures
        be_u32_at(u32_be_bytes(v), 0) == v,
{
    assert(be_u32((v >> 24u32) as u8, (v >> 16u32) as u8, (v >> 8u32) as u8, v as u8) == v)
        by (bit_vector);
}

/// Reads the first four bytes of `package` as a big-endian `u32`.
pub fn deserialize_u32(package: &[u8]) -> (r: u32)
    requires
        package@.len() >= 4,
    ensures
        r == be_u32_at(package@, 0),
{
    ((package[0] as u32) << 24u32) | ((package[1] as u32) << 16u32) | ((package[2] as u32) << 8u32)
        | (package[3] as u32)
}

/// Appends the four big-endian bytes of `v` to `out`.
pub fn write_u32_be(out: &mut Vec<u8>, v: u32)
    ensures
        final(out)@ == old(out)@ + u32_be_bytes(v),
{
    out.push((v >> 24u32) as u8);
    out.push((v >> 16u32) as u8);
    out.push((v >> 8u32) as u8);
    out.push(v as u8);
    assert(out@ =~= old(out)@ + u32_be_bytes(v));
}

} // verus!
