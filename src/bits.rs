//! Packed bit fields over a single unsigned word.
//!
//! A field is an inclusive range of bit positions `lo..=hi`. Reading it
//! shifts the word down by `lo` and masks off everything above the
//! field's width; writing it replaces exactly those positions.
use vstd::prelude::*;

verus! {

/// The `hi - lo + 1` lowest bits set.
pub open spec fn range_mask64(lo: u64, hi: u64) -> u64 {
    u64::MAX >> ((63 - (hi - lo)) as u64)
}

/// Bits `lo..=hi` of `x`, moved down to bit 0.
pub open spec fn bits64(x: u64, lo: u64, hi: u64) -> u64 {
    (x >> lo) & range_mask64(lo, hi)
}

/// Whether bit `i` of `x` is set.
pub open spec fn bit64(x: u64, i: u64) -> bool {
    (x >> i) & 1 == 1
}

/// `new` is `old` with bits `lo..=hi` holding the low bits of `v` and every
/// other bit as it was.
pub open spec fn sets_bits64(old_word: u64, new_word: u64, lo: u64, hi: u64, v: u64) -> bool {
    &&& bits64(new_word, lo, hi) == v & range_mask64(lo, hi)
    &&& forall|i: u64| i < 64 && (i < lo || hi < i) ==> bit64(new_word, i) == bit64(old_word, i)
}

/// The `hi - lo + 1` lowest bits set, on a 32-bit word.
pub open spec fn range_mask32(lo: u32, hi: u32) -> u32 {
    u32::MAX >> ((31 - (hi - lo)) as u32)
}

/// Bits `lo..=hi` of a 32-bit word, moved down to bit 0.
pub open spec fn bits32(x: u32, lo: u32, hi: u32) -> u32 {
    (x >> lo) & range_mask32(lo, hi)
}

/// Whether bit `i` of a 32-bit word is set.
pub open spec fn bit32(x: u32, i: u32) -> bool {
    (x >> i) & 1 == 1
}

/// Reads bits `lo..=hi` of `x`.
pub fn get_bits64(x: u64, lo: u64, hi: u64) -> (r: u64)
    requires
        lo <= hi < 64,
    ensures
        r == bits64(x, lo, hi),
{
    (x >> lo) & (u64::MAX >> (63 - (hi - lo)))
}

/// Reads bits `lo..=hi` of a 32-bit word.
pub fn get_bits32(x: u32, lo: u32, hi: u32) -> (r: u32)
    requires
        lo <= hi < 32,
    ensures
        r == bits32(x, lo, hi),
{
    (x >> lo) & (u32::MAX >> (31 - (hi - lo)))
}

/// Reads bit `i` of a 32-bit word.
pub fn get_bit32(x: u32, i: u32) -> (r: bool)
    requires
        i < 32,
    ensures
        r == bit32(x, i),
{
    (x >> i) & 1 == 1
}

proof fn lemma_set_bits64(x: u64, lo: u64, hi: u64, v: u64, m: u64, r: u64)
    by (bit_vector)
    requires
        lo <= hi < 64,
        m == u64::MAX >> ((63 - (hi - lo)) as u64),
        r == (x & !(m << lo)) | ((v & m) << lo),
    ensures
        (r >> lo) & m == v & m,
        forall|i: u64| i < 64 && (i < lo || hi < i) ==> ((r >> i) & 1 == 1) == ((x >> i) & 1 == 1),
{
}

/// Writes the low bits of `v` into bits `lo..=hi` of `x`; the rest of `x`
/// is kept.
pub fn set_bits64(x: u64, lo: u64, hi: u64, v: u64) -> (r: u64)
    requires
        lo <= hi < 64,
    ensures
        sets_bits64(x, r, lo, hi, v),
{
    let m: u64 = u64::MAX >> (63 - (hi - lo));
    let r: u64 = (x & !(m << lo)) | ((v & m) << lo);
    proof {
        lemma_set_bits64(x, lo, hi, v, m, r);
    }
    r
}

/// A value that fits in a field reads back unchanged once written, and
/// writing a field touches no bit outside it.
pub proof fn lemma_field_round_trip64(x: u64, lo: u64, hi: u64, v: u64, r: u64)
    requires
        lo <= hi < 64,
        v <= range_mask64(lo, hi),
        sets_bits64(x, r, lo, hi, v),
    ensures
        bits64(r, lo, hi) == v,
        forall|i: u64| i < 64 && (i < lo || hi < i) ==> bit64(r, i) == bit64(x, i),
{
    let m = range_mask64(lo, hi);
    assert(v & m == v) by (bit_vector)
        requires
            lo <= hi < 64,
            m == u64::MAX >> ((63 - (hi - lo)) as u64),
            v <= m,
    ;
}

} // verus!
