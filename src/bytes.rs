//! Little-endian integer reads, backed by the `byteorder` crate.
use byteorder::{ByteOrder, LittleEndian};
use vstd::prelude::*;

verus! {

/// The little-endian 16-bit value held by `b[off]` and `b[off + 1]`.
pub open spec fn le_u16(b: Seq<u8>, off: int) -> u16 {
    (b[off] as int + 256 * (b[off + 1] as int)) as u16
}

/// The little-endian 32-bit value held by `b[off]` through `b[off + 3]`.
pub open spec fn le_u32(b: Seq<u8>, off: int) -> u32 {
    (b[off] as int + 0x100 * (b[off + 1] as int) + 0x1_0000 * (b[off + 2] as int) + 0x100_0000 * (
    b[off + 3] as int)) as u32
}

/// `b` with the little-endian bytes of `x` written at `off` and `off + 1`.
pub open spec fn put_le_u16(b: Seq<u8>, off: int, x: u16) -> Seq<u8> {
    b.update(off, (x % 0x100) as u8).update(off + 1, (x / 0x100) as u8)
}

/// Reading back a little-endian 16-bit value gives what was written.
pub proof fn lemma_le_u16_put(b: Seq<u8>, off: int, x: u16)
    requires
        0 <= off,
        off + 1 < b.len(),
    ensures
        le_u16(put_le_u16(b, off, x), off) == x,
{
    let p = put_le_u16(b, off, x);
    assert(p[off] == x % 0x100 && p[off + 1] == x / 0x100);
    assert(x % 0x100 + 0x100 * (x / 0x100) == x);
}

/// Relies on `LittleEndian::read_u16` of byteorder: it reads the first two bytes
/// as a little-endian `u16`, and panics on a shorter slice.
#[verifier::external_body]
pub(crate) fn read_u16_le(buf: &[u8]) -> (r: u16)
    requires
        buf@.len() >= 2,
    ensures
        r == le_u16(buf@, 0),
{
    LittleEndian::read_u16(buf)
}

/// Relies on `LittleEndian::read_u32` of byteorder: it reads the first four bytes
/// as a little-endian `u32`, and panics on a shorter slice.
#[verifier::external_body]
pub(crate) fn read_u32_le(buf: &[u8]) -> (r: u32)
    requires
        buf@.len() >= 4,
    ensures
        r == le_u32(buf@, 0),
{
    LittleEndian::read_u32(buf)
}

} // verus!
