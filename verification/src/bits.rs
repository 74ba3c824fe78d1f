//! Bit- and byte-level helpers for the 16-bit registers of the expander.
//!
//! Every register transaction on the wire carries 16-bit values as two bytes,
//! low byte first; every per-pin update is a single-bit read-modify-write.
//! The functions here are the arithmetic core of that protocol, with exact
//! contracts, so that the driver's register operations can promise precisely
//! which bits they touch.

use vstd::prelude::*;

verus! {

/// True iff bit `i` of `v` is set.
pub open spec fn bit16(v: u16, i: u16) -> bool {
    v & (1u16 << i) != 0
}

/// The 16-bit value carried by a low byte and a high byte, as the chip
/// transmits them: low byte first on the wire, reassembled high-before-low.
pub open spec fn word_of(lo: u8, hi: u8) -> u16 {
    ((hi as u16) << 8) | (lo as u16)
}

/// The byte sent first when writing `v` to a 16-bit register.
pub open spec fn low_byte(v: u16) -> u8 {
    v as u8
}

/// The byte sent second when writing `v` to a 16-bit register.
pub open spec fn high_byte(v: u16) -> u8 {
    (v >> 8) as u8
}

/// `v` with bit `i` forced to `b` and every other bit untouched.
pub open spec fn set_bit_spec(v: u16, i: u16, b: bool) -> u16 {
    if b {
        v | (1u16 << i)
    } else {
        v & !(1u16 << i)
    }
}

/// Splitting a word into its two wire bytes and reassembling them is the
/// identity, in both directions.
pub proof fn lemma_word_bytes_round_trip(v: u16, lo: u8, hi: u8)
    ensures
        word_of(low_byte(v), high_byte(v)) == v,
        low_byte(word_of(lo, hi)) == lo,
        high_byte(word_of(lo, hi)) == hi,
        word_of(lo, hi) == 256 * (hi as u16) + (lo as u16),
{
    assert(((((v >> 8) as u8) as u16) << 8) | ((v as u8) as u16) == v) by (bit_vector);
    assert(((((hi as u16) << 8) | (lo as u16)) as u8) == lo) by (bit_vector);
    assert(((((hi as u16) << 8) | (lo as u16)) >> 8) as u8 == hi) by (bit_vector);
    assert(((hi as u16) << 8) | (lo as u16) == 256 * (hi as u16) + (lo as u16)) by (bit_vector);
}

/// Forcing one bit of a register image leaves that bit equal to the request
/// and every other bit exactly as it was; this is what makes the driver's
/// read-modify-write sequences safe for unrelated pins.
pub proof fn lemma_set_bit(v: u16, i: u16, b: bool)
    requires
        i < 16,
    ensures
        bit16(set_bit_spec(v, i, b), i) == b,
        forall|j: u16| j < 16 && j != i ==> bit16(set_bit_spec(v, i, b), j) == bit16(v, j),
{
    assert(((v | (1u16 << i)) & (1u16 << i) != 0) == true) by (bit_vector)
        requires
            i < 16,
    ;
    assert(((v & !(1u16 << i)) & (1u16 << i) != 0) == false) by (bit_vector)
        requires
            i < 16,
    ;
    assert(forall|j: u16|
        j < 16 && j != i ==> ((v | (1u16 << i)) & (1u16 << j) != 0) == (v & (1u16 << j)
            != 0)) by (bit_vector)
        requires
            i < 16,
    ;
    assert(forall|j: u16|
        j < 16 && j != i ==> ((v & !(1u16 << i)) & (1u16 << j) != 0) == (v & (1u16 << j)
            != 0)) by (bit_vector)
        requires
            i < 16,
    ;
}

/// A register image of zero has no bit set.
pub proof fn lemma_zero_bits()
    ensures
        forall|j: u16| j < 16 ==> !bit16(0u16, j),
{
    assert(forall|j: u16| j < 16 ==> (0u16 & (1u16 << j) != 0) == false) by (bit_vector);
}

/// Reassemble a register value from its two wire bytes.
pub fn word_join(lo: u8, hi: u8) -> (v: u16)
    ensures
        v == word_of(lo, hi),
{
    ((hi as u16) << 8) | (lo as u16)
}

/// Split a register value into its two wire bytes, low byte first.
pub fn word_split(v: u16) -> (r: (u8, u8))
    ensures
        r.0 == low_byte(v),
        r.1 == high_byte(v),
{
    (v as u8, (v >> 8) as u8)
}

/// Test bit `pin` of a register value.
pub fn test_bit(v: u16, pin: u8) -> (b: bool)
    requires
        pin < 16,
    ensures
        b == bit16(v, pin as u16),
{
    v & (1u16 << (pin as u16)) != 0
}

/// Force bit `pin` of a register value to `b`, leaving all other bits alone.
pub fn set_bit(v: u16, pin: u8, b: bool) -> (r: u16)
    requires
        pin < 16,
    ensures
        r == set_bit_spec(v, pin as u16, b),
{
    if b {
        v | (1u16 << (pin as u16))
    } else {
        v & !(1u16 << (pin as u16))
    }
}

} // verus!
