//! Little-endian readers and writers for the byte formats the library
//! parses and emits.

use vstd::prelude::*;
use vstd::slice::slice_index_get;

verus! {

/// The value of two bytes read as a little-endian 16-bit integer.
pub open spec fn le16(b0: u8, b1: u8) -> int {
    b0 + 256 * b1
}

/// The value of four bytes read as a little-endian 32-bit integer.
pub open spec fn le32(b0: u8, b1: u8, b2: u8, b3: u8) -> int {
    b0 + 256 * b1 + 65536 * b2 + 16777216 * b3
}

/// The four little-endian bytes of a 32-bit value.
pub open spec fn u32_le_bytes(v: int) -> Seq<u8> {
    seq![
        (v % 256) as u8,
        ((v / 256) % 256) as u8,
        ((v / 65536) % 256) as u8,
        ((v / 16777216) % 256) as u8,
    ]
}

/// Reads a little-endian 16-bit value at `off`.
pub fn read_u16_le(bytes: &[u8], off: usize) -> (r: u16)
    requires
        off + 2 <= bytes@.len(),
        off + 2 <= usize::MAX,
    ensures
        r == le16(bytes@[off as int], bytes@[off + 1]),
{
    let b0 = *slice_index_get(bytes, off);
    let b1 = *slice_index_get(bytes, off + 1);
    (b0 as u16) + 256 * (b1 as u16)
}

/// Reads a little-endian 32-bit value at `off`.
pub fn read_u32_le(bytes: &[u8], off: usize) -> (r: u32)
    requires
        off + 4 <= bytes@.len(),
        off + 4 <= usize::MAX,
    ensures
        r == le32(bytes@[off as int], bytes@[off + 1], bytes@[off + 2], bytes@[off + 3]),
{
    let b0 = *slice_index_get(bytes, off);
    let b1 = *slice_index_get(bytes, off + 1);
    let b2 = *slice_index_get(bytes, off + 2);
    let b3 = *slice_index_get(bytes, off + 3);
    (b0 as u32) + 256 * (b1 as u32) + 65536 * (b2 as u32) + 16777216 * (b3 as u32)
}

/// Appends the four little-endian bytes of `v`.
pub fn push_u32_le(r: &mut Vec<u8>, v: u32)
    ensures
        final(r)@ == old(r)@ + u32_le_bytes(v as int),
{
    r.push((v % 256) as u8);
    r.push(((v / 256) % 256) as u8);
    r.push(((v / 65536) % 256) as u8);
    r.push(((v / 16777216) % 256) as u8);
    proof {
        assert(r@ =~= old(r)@ + u32_le_bytes(v as int));
    }
}

/// A 32-bit value is recovered from its own little-endian bytes.
pub proof fn lemma_le32_round_trip(v: int)
    requires
        0 <= v <= u32::MAX,
    ensures
        le32(u32_le_bytes(v)[0], u32_le_bytes(v)[1], u32_le_bytes(v)[2], u32_le_bytes(v)[3]) == v,
{
    vstd::arithmetic::div_mod::lemma_fundamental_div_mod(v, 256);
    vstd::arithmetic::div_mod::lemma_fundamental_div_mod(v / 256, 256);
    vstd::arithmetic::div_mod::lemma_fundamental_div_mod(v / 65536, 256);
    assert(v / 256 / 256 == v / 65536) by {
        vstd::arithmetic::div_mod::lemma_div_denominator(v, 256, 256);
    }
    assert(v / 65536 / 256 == v / 16777216) by {
        vstd::arithmetic::div_mod::lemma_div_denominator(v, 65536, 256);
    }
    assert(v / 16777216 < 256) by {
        vstd::arithmetic::div_mod::lemma_div_is_ordered(v, 0xFFFF_FFFF, 16777216);
    }
    assert(v / 16777216 >= 0) by {
        vstd::arithmetic::div_mod::lemma_div_pos_is_pos(v, 16777216);
    }
    vstd::arithmetic::div_mod::lemma_small_mod((v / 16777216) as nat, 256);
    vstd::arithmetic::div_mod::lemma_mod_bound(v, 256);
    vstd::arithmetic::div_mod::lemma_mod_bound(v / 256, 256);
    vstd::arithmetic::div_mod::lemma_mod_bound(v / 65536, 256);
}

} // verus!
