//! Register words and their two readings.
//!
//! A general-purpose register of RV64 holds 64 bits. The public face of every
//! instruction front end in this crate is the unsigned reading of those bits,
//! a `u64`; the primitives that execute the instructions take and return the
//! signed reading, an `i64`. This module defines both readings over the
//! integers, proves that they describe the same bits, and provides the two
//! conversions.

use vstd::prelude::*;

verus! {

/// The signed reading of a word: the integer in `-2^63 .. 2^63` that is
/// congruent to `x` modulo `2^64`.
pub open spec fn as_signed(x: u64) -> i64 {
    if x <= 0x7fff_ffff_ffff_ffff {
        x as i64
    } else {
        (x - 0x1_0000_0000_0000_0000) as i64
    }
}

/// The unsigned reading of a signed word: the integer in `0 .. 2^64` that is
/// congruent to `y` modulo `2^64`.
pub open spec fn as_unsigned(y: i64) -> u64 {
    if y >= 0 {
        y as u64
    } else {
        (y + 0x1_0000_0000_0000_0000) as u64
    }
}

/// Bit `k` of a word, counted from the least significant bit.
pub open spec fn bit(x: u64, k: u32) -> bool {
    (x >> k) & 1 == 1
}

/// Bit `k` of a signed word, counted from the least significant bit.
pub open spec fn signed_bit(y: i64, k: u32) -> bool {
    (y >> k) & 1 == 1
}

/// A cast from `u64` to `i64` yields the signed reading.
pub proof fn lemma_cast_is_signed_reading(x: u64)
    ensures
        x as i64 == as_signed(x),
{
    assert(x <= 0x7fff_ffff_ffff_ffffu64 ==> x as i64 == x) by (bit_vector);
    assert(x > 0x7fff_ffff_ffff_ffffu64 ==> x as i64 == x - 0x1_0000_0000_0000_0000)
        by (bit_vector);
}

/// A cast from `i64` to `u64` yields the unsigned reading.
pub proof fn lemma_cast_is_unsigned_reading(y: i64)
    ensures
        y as u64 == as_unsigned(y),
{
    assert(y >= 0 ==> y as u64 == y) by (bit_vector);
    assert(y < 0 ==> y as u64 == y + 0x1_0000_0000_0000_0000) by (bit_vector);
}

/// Reading a word as signed and the result as unsigned gives the word back.
pub proof fn lemma_unsigned_of_signed(x: u64)
    ensures
        as_unsigned(as_signed(x)) == x,
{
}

/// Reading a signed word as unsigned and the result as signed gives the signed
/// word back.
pub proof fn lemma_signed_of_unsigned(y: i64)
    ensures
        as_signed(as_unsigned(y)) == y,
{
}

/// Distinct words have distinct signed readings.
pub proof fn lemma_signed_reading_is_injective(x1: u64, x2: u64)
    requires
        as_signed(x1) == as_signed(x2),
    ensures
        x1 == x2,
{
    lemma_unsigned_of_signed(x1);
    lemma_unsigned_of_signed(x2);
}

/// Distinct signed words have distinct unsigned readings.
pub proof fn lemma_unsigned_reading_is_injective(y1: i64, y2: i64)
    requires
        as_unsigned(y1) == as_unsigned(y2),
    ensures
        y1 == y2,
{
    lemma_signed_of_unsigned(y1);
    lemma_signed_of_unsigned(y2);
}

/// A word and its signed reading agree in every one of their 64 bits.
pub proof fn lemma_signed_reading_keeps_bits(x: u64, k: u32)
    requires
        k < 64,
    ensures
        signed_bit(as_signed(x), k) == bit(x, k),
{
    lemma_cast_is_signed_reading(x);
    let y = x as i64;
    assert(((y >> k) & 1 == 1) == ((x >> k) & 1 == 1)) by (bit_vector)
        requires
            y == x as i64,
            k < 64,
    ;
}

/// A signed word and its unsigned reading agree in every one of their 64 bits.
pub proof fn lemma_unsigned_reading_keeps_bits(y: i64, k: u32)
    requires
        k < 64,
    ensures
        bit(as_unsigned(y), k) == signed_bit(y, k),
{
    lemma_signed_of_unsigned(y);
    lemma_signed_reading_keeps_bits(as_unsigned(y), k);
}

/// Reinterprets a word as the signed word with the same bits.
#[inline]
pub fn to_signed(x: u64) -> (y: i64)
    ensures
        y == as_signed(x),
{
    proof {
        lemma_cast_is_signed_reading(x);
    }
    #[verifier::truncate]
    (x as i64)
}

/// Reinterprets a signed word as the word with the same bits.
#[inline]
pub fn to_unsigned(y: i64) -> (x: u64)
    ensures
        x == as_unsigned(y),
{
    proof {
        lemma_cast_is_unsigned_reading(y);
    }
    #[verifier::truncate]
    (y as u64)
}

} // verus!
