//! The pointer/length calling convention: a byte buffer's location in guest
//! memory travels as one 64-bit word, offset in the low half and length in
//! the high half.

use vstd::prelude::*;

verus! {

/// The packed word for a buffer at `ptr` of `len` bytes.
pub open spec fn packed(ptr: u32, len: u32) -> int {
    len as int * 0x1_0000_0000 + ptr as int
}

/// The offset half of a packed word.
pub open spec fn ptr_of(value: u64) -> u32 {
    (value as int % 0x1_0000_0000) as u32
}

/// The length half of a packed word.
pub open spec fn len_of(value: u64) -> u32 {
    (value as int / 0x1_0000_0000) as u32
}

/// Packs a buffer location: `ptr` in the low 32 bits, `len` in the high 32 bits.
pub fn pack(ptr: u32, len: u32) -> (r: u64)
    ensures
        r as int == packed(ptr, len),
{
    let r: u64 = ((len as u64) << 32u64) | (ptr as u64);
    assert(r == len as u64 * 0x1_0000_0000u64 + ptr as u64) by (bit_vector)
        requires
            r == ((len as u64) << 32u64) | (ptr as u64),
    ;
    r
}

/// Splits a packed word into `(ptr, len)`: the low and the high 32 bits.
pub fn unpack_ptr_and_len(value: u64) -> (r: (u32, u32))
    ensures
        r.0 == ptr_of(value),
        r.1 == len_of(value),
        value as int == packed(r.0, r.1),
{
    let ptr: u32 = (value & 0xFFFF_FFFFu64) as u32;
    let len: u32 = (value >> 32u64) as u32;
    assert(value & 0xFFFF_FFFFu64 == value % 0x1_0000_0000u64) by (bit_vector);
    assert(value >> 32u64 == value / 0x1_0000_0000u64) by (bit_vector);
    (ptr, len)
}

/// Unpacking a packed location gives back the offset and the length that
/// were packed, for every pair of 32-bit values.
pub proof fn lemma_unpack_pack(ptr: u32, len: u32)
    ensures
        packed(ptr, len) <= u64::MAX,
        ptr_of(packed(ptr, len) as u64) == ptr,
        len_of(packed(ptr, len) as u64) == len,
{
    let v = packed(ptr, len);
    assert(v <= u64::MAX) by (nonlinear_arith)
        requires
            v == len as int * 0x1_0000_0000 + ptr as int,
            0 <= len <= u32::MAX,
            0 <= ptr <= u32::MAX,
    ;
    assert(v % 0x1_0000_0000 == ptr as int) by (nonlinear_arith)
        requires
            v == len as int * 0x1_0000_0000 + ptr as int,
            0 <= ptr < 0x1_0000_0000,
    ;
    assert(v / 0x1_0000_0000 == len as int) by (nonlinear_arith)
        requires
            v == len as int * 0x1_0000_0000 + ptr as int,
            0 <= ptr < 0x1_0000_0000,
    ;
}

/// No two distinct offset/length pairs pack to the same word.
pub proof fn lemma_pack_injective(p1: u32, l1: u32, p2: u32, l2: u32)
    requires
        packed(p1, l1) == packed(p2, l2),
    ensures
        p1 == p2,
        l1 == l2,
{
    lemma_unpack_pack(p1, l1);
    lemma_unpack_pack(p2, l2);
}

} // verus!
