//! Bit-level helpers for the controller's registers.
//!
//! The enable, type and clear registers hold one bit per CPU interrupt line;
//! the aggregate pending status holds one bit per peripheral source, spread
//! over two 32-bit words. These spec functions and lemmas relate the word
//! values the hardware sees to the per-bit facts the contracts speak of.

use vstd::prelude::*;

verus! {

/// Bit `i` of the 32-bit register word `w`.
pub open spec fn bit32(w: u32, i: u32) -> bool {
    (w >> i) & 1 == 1
}

/// Bit `i` of the 128-bit aggregate word `w`.
pub open spec fn bit128(w: u128, i: u128) -> bool {
    (w >> i) & 1 == 1
}

/// The zero word has no bit set.
pub proof fn lemma_bit128_zero(i: u128)
    ensures
        !bit128(0, i),
{
    assert((0u128 >> i) & 1 != 1) by (bit_vector);
}

/// Setting bit `s` of `w` sets exactly that bit and keeps every other bit.
pub proof fn lemma_bit128_set_one(w: u128, s: u128, t: u128)
    requires
        s < 128,
    ensures
        bit128(w | (1u128 << s), t) == (bit128(w, t) || t == s),
{
    assert((((w | (1u128 << s)) >> t) & 1 == 1) == (((w >> t) & 1 == 1) || t == s)) by (bit_vector)
        requires
            s < 128,
    ;
}

/// A bit of an intersection is set exactly when it is set in both words.
pub proof fn lemma_bit128_and(a: u128, b: u128, t: u128)
    ensures
        bit128(a & b, t) == (bit128(a, t) && bit128(b, t)),
{
    assert((((a & b) >> t) & 1 == 1) == (((a >> t) & 1 == 1) && ((b >> t) & 1 == 1)))
        by (bit_vector);
}

/// The zero 32-bit word has no bit set.
pub proof fn lemma_bit32_zero(i: u32)
    ensures
        !bit32(0, i),
{
    assert((0u32 >> i) & 1 != 1) by (bit_vector);
}

/// Setting bit `s` of a 32-bit word sets exactly that bit and keeps the rest.
pub proof fn lemma_bit32_set_one(w: u32, s: u32, t: u32)
    requires
        s < 32,
    ensures
        bit32(w | (1u32 << s), t) == (bit32(w, t) || t == s),
{
    assert((((w | (1u32 << s)) >> t) & 1 == 1) == (((w >> t) & 1 == 1) || t == s)) by (bit_vector)
        requires
            s < 32,
    ;
}

/// Clearing bit `s` and writing `b` (0 or 1) there leaves bit `s` equal to
/// `b` and every other bit unchanged.
pub proof fn lemma_bit32_write_one(w: u32, s: u32, b: u32, t: u32)
    requires
        s < 32,
        b == 0 || b == 1,
    ensures
        bit32(w & !(1u32 << s) | (b << s), t) == (if t == s {
            b == 1
        } else {
            bit32(w, t)
        }),
{
    assert((((w & !(1u32 << s) | (b << s)) >> t) & 1 == 1) == (if t == s {
        b == 1
    } else {
        (w >> t) & 1 == 1
    })) by (bit_vector)
        requires
            s < 32,
            b == 0 || b == 1,
    ;
}

/// Bit `s` of the 128-bit concatenation of two 32-bit status words is the
/// corresponding bit of the low or of the high word.
pub proof fn lemma_status_concat(lo: u32, hi: u32, s: u128)
    requires
        s < 64,
    ensures
        bit128((lo as u128) | ((hi as u128) << 32), s) == (if s < 32 {
            bit32(lo, s as u32)
        } else {
            bit32(hi, (s - 32) as u32)
        }),
{
    assert(((((lo as u128) | ((hi as u128) << 32)) >> s) & 1 == 1) == (if s < 32 {
        (lo >> (s as u32)) & 1 == 1
    } else {
        (hi >> ((s - 32) as u32)) & 1 == 1
    })) by (bit_vector)
        requires
            s < 64,
    ;
}

} // verus!
