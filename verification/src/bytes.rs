//! Little-endian integer fields of a byte buffer.
use byteorder::{ByteOrder, LittleEndian};
use vstd::prelude::*;

verus! {

/// The unsigned 16-bit integer stored little-endian at `off`.
pub open spec fn u16_le(s: Seq<u8>, off: int) -> u16 {
    (s[off] as int + 256 * s[off + 1]) as u16
}

/// The unsigned 32-bit integer stored little-endian at `off`.
pub open spec fn u32_le(s: Seq<u8>, off: int) -> u32 {
    (s[off] as int + 256 * s[off + 1] + 65536 * s[off + 2] + 16777216 * s[off + 3]) as u32
}

/// The two's-complement signed 32-bit integer stored little-endian at `off`.
pub open spec fn i32_le(s: Seq<u8>, off: int) -> i32 {
    let u = u32_le(s, off) as int;
    (if u < 0x8000_0000 { u } else { u - 0x1_0000_0000 }) as i32
}

/// The fields are little-endian: the byte at `off` is the lowest, the last
/// byte the highest, and a signed word is negative exactly when its highest
/// byte has the top bit set, differing from the unsigned word by 2^32 then.
pub proof fn lemma_little_endian(s: Seq<u8>, off: int)
    requires
        0 <= off,
        off + 4 <= s.len(),
    ensures
        u32_le(s, off) % 256 == s[off],
        u32_le(s, off) / 16777216 == s[off + 3],
        (u32_le(s, off) / 256) % 256 == s[off + 1],
        (u32_le(s, off) / 65536) % 256 == s[off + 2],
        u16_le(s, off) % 256 == s[off],
        u16_le(s, off) / 256 == s[off + 1],
        (i32_le(s, off) < 0) <==> s[off + 3] >= 128,
        i32_le(s, off) >= 0 ==> i32_le(s, off) == u32_le(s, off),
        i32_le(s, off) < 0 ==> i32_le(s, off) + 0x1_0000_0000 == u32_le(s, off),
{
}

/// `byteorder`'s `LittleEndian::read_u16`: the first two bytes of `buf`,
/// least significant first. It panics on a shorter buffer.
#[verifier::external_body]
pub(crate) fn read_u16_le(buf: &[u8]) -> (r: u16)
    requires
        buf@.len() >= 2,
    ensures
        r == u16_le(buf@, 0),
{
    LittleEndian::read_u16(buf)
}

/// `byteorder`'s `LittleEndian::read_u32`: the first four bytes of `buf`,
/// least significant first. It panics on a shorter buffer.
#[verifier::external_body]
pub(crate) fn read_u32_le(buf: &[u8]) -> (r: u32)
    requires
        buf@.len() >= 4,
    ensures
        r == u32_le(buf@, 0),
{
    LittleEndian::read_u32(buf)
}

/// `byteorder`'s `LittleEndian::read_i32`: the first four bytes of `buf`,
/// least significant first, read as a two's-complement integer. It panics on
/// a shorter buffer.
#[verifier::external_body]
pub(crate) fn read_i32_le(buf: &[u8]) -> (r: i32)
    requires
        buf@.len() >= 4,
    ensures
        r == i32_le(buf@, 0),
{
    LittleEndian::read_i32(buf)
}

} // verus!
