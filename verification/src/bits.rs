//! Arithmetic on bytes and 16-bit words.
//!
//! The machine is little-endian and all of its arithmetic is modular. The
//! specification functions here state that arithmetic over the integers; the
//! executable helpers compute the same values with shifts and masks.

use vstd::prelude::*;

verus! {

/// The 16-bit word whose low byte is `lo` and whose high byte is `hi`.
pub open spec fn word(lo: u8, hi: u8) -> u16 {
    (lo + 256 * hi) as u16
}

/// The low byte of a word.
pub open spec fn low_byte(w: u16) -> u8 {
    (w % 256) as u8
}

/// The high byte of a word.
pub open spec fn high_byte(w: u16) -> u8 {
    (w / 256) as u8
}

/// The value of a byte read as a two's-complement number, in `-128..=127`.
pub open spec fn signed(b: u8) -> int {
    if b < 128 {
        b as int
    } else {
        b - 256
    }
}

/// The byte congruent to `i` modulo 256.
pub open spec fn wrap8(i: int) -> u8 {
    (i % 256) as u8
}

/// The word congruent to `i` modulo 65536.
pub open spec fn wrap16(i: int) -> u16 {
    (i % 65536) as u16
}

/// Shifting the high byte up and joining the low byte to it composes the
/// word.
pub proof fn lemma_compose_bits(lo: u8, hi: u8)
    by (bit_vector)
    ensures
        ((hi as u16) << 8 | (lo as u16)) == (lo as u16) + 256 * (hi as u16),
{
}

/// Shifting and masking split a word into its bytes and its page.
pub proof fn lemma_split_bits(w: u16)
    by (bit_vector)
    ensures
        (w >> 8) == w / 256,
        (w >> 8) < 256,
        (w & 0x00FF) == w % 256,
        (w & 0xFF00) == (w - w % 256) as u16,
{
}

/// What the bits of a byte say of its value: bit 7 is set iff the byte is
/// 128 or more, bit 0 iff it is odd; shifting left doubles modulo 256 and
/// shifting right halves; the bit that a shift vacates can be filled by
/// addition.
pub proof fn lemma_byte_bits(v: u8)
    by (bit_vector)
    ensures
        (v & 0x80 != 0) == (v >= 0x80),
        (v >> 7 == 1) == (v >= 0x80),
        (v & 1 == 1) == (v % 2 == 1),
        (v << 1) == ((2 * v) % 256) as u8,
        ((v << 1) | 1) == (v << 1) + 1,
        (v >> 1) == v / 2,
        ((v >> 1) | 0x80) == v / 2 + 128,
{
}

/// The sign-bit test for overflow of an addition: bit 7 of
/// `(b ^ r) & (r ^ a)` is set iff `a` and `b` have the same sign and `r` has
/// the other one.
pub proof fn lemma_sign_bits(a: u8, b: u8, r: u8)
    by (bit_vector)
    ensures
        ((b ^ r) & (r ^ a) & 0x80 != 0) <==> {
            &&& (a >= 0x80) <==> (b >= 0x80)
            &&& !((r >= 0x80) <==> (a >= 0x80))
        },
{
}

/// A word is the one made of its own low and high bytes, and the bytes of a
/// composed word are the bytes it was composed of.
pub proof fn lemma_word_bytes(lo: u8, hi: u8, w: u16)
    ensures
        word(low_byte(w), high_byte(w)) == w,
        low_byte(word(lo, hi)) == lo,
        high_byte(word(lo, hi)) == hi,
{
}

/// Composes a word from its two bytes.
pub fn make_word(lo: u8, hi: u8) -> (w: u16)
    ensures
        w == word(lo, hi),
{
    proof {
        lemma_compose_bits(lo, hi);
    }
    (hi as u16) << 8 | (lo as u16)
}

/// The low byte of `w`.
pub fn low_byte_of(w: u16) -> (b: u8)
    ensures
        b == low_byte(w),
{
    proof {
        lemma_split_bits(w);
    }
    (w & 0x00FF) as u8
}

/// The high byte of `w`.
pub fn high_byte_of(w: u16) -> (b: u8)
    ensures
        b == high_byte(w),
{
    proof {
        lemma_split_bits(w);
    }
    (w >> 8) as u8
}

/// The word that adds the signed value of `b` when added modulo 65536.
pub fn sign_extend(b: u8) -> (w: u16)
    ensures
        w == wrap16(signed(b)),
{
    if b < 0x80 {
        b as u16
    } else {
        0xFF00 + b as u16
    }
}

} // verus!
