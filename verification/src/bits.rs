//! Bit ranges of 32-bit and 64-bit words.
//!
//! A range is named as in hardware manuals: `msb:lsb`, both ends included.

use vstd::arithmetic::power2::{lemma2_to64, lemma2_to64_rest, lemma_pow2_adds, lemma_pow2_pos, pow2};
use vstd::bits::{
    lemma_u32_low_bits_mask_is_mod, lemma_u32_shr_is_div, lemma_u64_low_bits_mask_is_mod,
    lemma_u64_shr_is_div, low_bits_mask,
};
use vstd::prelude::*;

verus! {

/// The bits `msb:lsb` of `word`, moved down to bit 0.
pub open spec fn bits32(word: u32, msb: u32, lsb: u32) -> u32 {
    (word >> lsb) & (u32::MAX >> ((31 - msb + lsb) as u32))
}

/// `word` with the bits `msb:lsb` replaced by the low bits of `value`.
pub open spec fn with_bits32(word: u32, msb: u32, lsb: u32, value: u32) -> u32 {
    let mask = (u32::MAX >> ((31 - msb + lsb) as u32)) << lsb;
    (word & !mask) | ((value << lsb) & mask)
}

/// Whether bit `index` of `word` is set.
pub open spec fn bit32(word: u32, index: u32) -> bool {
    bits32(word, index, index) == 1
}

/// `word` with bit `index` set to `value`.
pub open spec fn with_bit32(word: u32, index: u32, value: bool) -> u32 {
    with_bits32(word, index, index, if value { 1u32 } else { 0u32 })
}

/// Reads the bits `msb:lsb` of `word`: the word divided by `2^lsb`, modulo
/// two to the number of bits of the range.
pub fn get_bits32(word: u32, msb: u32, lsb: u32) -> (r: u32)
    requires
        lsb <= msb < 32,
    ensures
        r == bits32(word, msb, lsb),
        r == (word as nat / pow2(lsb as nat)) % pow2((msb - lsb + 1) as nat),
{
    proof {
        lemma_bits32_as_number(word, msb, lsb);
    }
    (word >> lsb) & (u32::MAX >> (31 - msb + lsb))
}

/// Writes the low bits of `value` into the bits `msb:lsb` of `word`.
pub fn set_bits32(word: u32, msb: u32, lsb: u32, value: u32) -> (r: u32)
    requires
        lsb <= msb < 32,
    ensures
        r == with_bits32(word, msb, lsb, value),
{
    let mask: u32 = (u32::MAX >> (31 - msb + lsb)) << lsb;
    (word & !mask) | ((value << lsb) & mask)
}

/// Reads bit `index` of `word`.
pub fn get_bit32(word: u32, index: u32) -> (r: bool)
    requires
        index < 32,
    ensures
        r == bit32(word, index),
{
    get_bits32(word, index, index) == 1
}

/// Sets bit `index` of `word` to `value`.
pub fn set_bit32(word: u32, index: u32, value: bool) -> (r: u32)
    requires
        index < 32,
    ensures
        r == with_bit32(word, index, value),
{
    set_bits32(word, index, index, if value { 1u32 } else { 0u32 })
}

/// A range read back after it was written holds the low bits of the value.
pub proof fn lemma_bits32_get_set(word: u32, msb: u32, lsb: u32, value: u32)
    by (bit_vector)
    requires
        lsb <= msb < 32,
    ensures
        bits32(with_bits32(word, msb, lsb, value), msb, lsb) == value & (u32::MAX >> (
        (31 - msb + lsb) as u32)),
{
}

/// Writing a range leaves every range that does not overlap it as it was.
pub proof fn lemma_bits32_set_other(word: u32, msb: u32, lsb: u32, value: u32, msb2: u32, lsb2: u32)
    by (bit_vector)
    requires
        lsb <= msb < 32,
        lsb2 <= msb2 < 32,
        msb2 < lsb || msb < lsb2,
    ensures
        bits32(with_bits32(word, msb, lsb, value), msb2, lsb2) == bits32(word, msb2, lsb2),
{
}

/// A range of `n` bits holds a number below `2^n`; stated for the widths of
/// the integer types that fields are read into.
pub proof fn lemma_bits32_bound(word: u32, msb: u32, lsb: u32)
    by (bit_vector)
    requires
        lsb <= msb < 32,
    ensures
        msb - lsb < 1 ==> bits32(word, msb, lsb) <= 1,
        msb - lsb < 8 ==> bits32(word, msb, lsb) <= 0xff,
        msb - lsb < 16 ==> bits32(word, msb, lsb) <= 0xffff,
{
}

/// A value that fits the range is stored whole; stated for the widths of
/// the fields that registers and TRBs have.
pub proof fn lemma_bits32_fit(msb: u32, lsb: u32, value: u32)
    by (bit_vector)
    requires
        lsb <= msb < 32,
    ensures
        value <= 1 ==> value & (u32::MAX >> ((31 - msb + lsb) as u32)) == value,
        msb - lsb >= 1 && value < 4 ==> value & (u32::MAX >> ((31 - msb + lsb) as u32)) == value,
        msb - lsb >= 2 && value < 8 ==> value & (u32::MAX >> ((31 - msb + lsb) as u32)) == value,
        msb - lsb >= 3 && value < 16 ==> value & (u32::MAX >> ((31 - msb + lsb) as u32)) == value,
        msb - lsb >= 5 && value < 64 ==> value & (u32::MAX >> ((31 - msb + lsb) as u32)) == value,
        msb - lsb >= 7 && value <= 0xff ==> value & (u32::MAX >> ((31 - msb + lsb) as u32)) == value,
        msb - lsb >= 15 && value <= 0xffff ==> value & (u32::MAX >> ((31 - msb + lsb) as u32)) == value,
{
}

/// What a range holds, as a number: the word divided by `2^lsb`, modulo two
/// to the number of bits of the range.
pub proof fn lemma_bits32_as_number(word: u32, msb: u32, lsb: u32)
    requires
        lsb <= msb < 32,
    ensures
        bits32(word, msb, lsb) == (word as nat / pow2(lsb as nat)) % pow2((msb - lsb + 1) as nat),
{
    let width = (msb - lsb + 1) as nat;
    let drop = (31 - msb + lsb) as u32;
    let shifted = word >> lsb;
    lemma_u32_shr_is_div(word, lsb);
    lemma_u32_shr_is_div(u32::MAX, drop);
    lemma_pow2_adds(drop as nat, width);
    lemma_pow2_pos(drop as nat);
    lemma_pow2_pos(width);
    lemma2_to64();
    lemma2_to64_rest();
    let a = pow2(drop as nat) as int;
    let b = pow2(width) as int;
    assert((a * b - 1) / a == b - 1) by (nonlinear_arith)
        requires
            a > 0,
            b > 0,
    ;
    assert(u32::MAX >> drop == low_bits_mask(width));
    if width < 32 {
        lemma_u32_low_bits_mask_is_mod(shifted, width);
    } else {
        assert(shifted & u32::MAX == shifted) by (bit_vector);
        assert(shifted as int % b == shifted) by (nonlinear_arith)
            requires
                0 <= shifted < b,
        ;
    }
}

/// Every range of the zero word is zero.
pub proof fn lemma_bits32_of_zero(msb: u32, lsb: u32)
    by (bit_vector)
    requires
        lsb <= msb < 32,
    ensures
        bits32(0, msb, lsb) == 0,
{
}


/// The bits `msb:lsb` of `word`, moved down to bit 0.
pub open spec fn bits64(word: u64, msb: u64, lsb: u64) -> u64 {
    (word >> lsb) & (u64::MAX >> ((63 - msb + lsb) as u64))
}

/// `word` with the bits `msb:lsb` replaced by the low bits of `value`.
pub open spec fn with_bits64(word: u64, msb: u64, lsb: u64, value: u64) -> u64 {
    let mask = (u64::MAX >> ((63 - msb + lsb) as u64)) << lsb;
    (word & !mask) | ((value << lsb) & mask)
}

/// Whether bit `index` of `word` is set.
pub open spec fn bit64(word: u64, index: u64) -> bool {
    bits64(word, index, index) == 1
}

/// `word` with bit `index` set to `value`.
pub open spec fn with_bit64(word: u64, index: u64, value: bool) -> u64 {
    with_bits64(word, index, index, if value { 1u64 } else { 0u64 })
}

/// Reads the bits `msb:lsb` of `word`: the word divided by `2^lsb`, modulo
/// two to the number of bits of the range.
pub fn get_bits64(word: u64, msb: u64, lsb: u64) -> (r: u64)
    requires
        lsb <= msb < 64,
    ensures
        r == bits64(word, msb, lsb),
        r == (word as nat / pow2(lsb as nat)) % pow2((msb - lsb + 1) as nat),
{
    proof {
        lemma_bits64_as_number(word, msb, lsb);
    }
    (word >> lsb) & (u64::MAX >> (63 - msb + lsb))
}

/// Writes the low bits of `value` into the bits `msb:lsb` of `word`.
pub fn set_bits64(word: u64, msb: u64, lsb: u64, value: u64) -> (r: u64)
    requires
        lsb <= msb < 64,
    ensures
        r == with_bits64(word, msb, lsb, value),
{
    let mask: u64 = (u64::MAX >> (63 - msb + lsb)) << lsb;
    (word & !mask) | ((value << lsb) & mask)
}

/// Reads bit `index` of `word`.
pub fn get_bit64(word: u64, index: u64) -> (r: bool)
    requires
        index < 64,
    ensures
        r == bit64(word, index),
{
    get_bits64(word, index, index) == 1
}

/// Sets bit `index` of `word` to `value`.
pub fn set_bit64(word: u64, index: u64, value: bool) -> (r: u64)
    requires
        index < 64,
    ensures
        r == with_bit64(word, index, value),
{
    set_bits64(word, index, index, if value { 1u64 } else { 0u64 })
}

/// A range read back after it was written holds the low bits of the value.
pub proof fn lemma_bits64_get_set(word: u64, msb: u64, lsb: u64, value: u64)
    by (bit_vector)
    requires
        lsb <= msb < 64,
    ensures
        bits64(with_bits64(word, msb, lsb, value), msb, lsb) == value & (u64::MAX >> (
        (63 - msb + lsb) as u64)),
{
}

/// Writing a range leaves every range that does not overlap it as it was.
pub proof fn lemma_bits64_set_other(word: u64, msb: u64, lsb: u64, value: u64, msb2: u64, lsb2: u64)
    by (bit_vector)
    requires
        lsb <= msb < 64,
        lsb2 <= msb2 < 64,
        msb2 < lsb || msb < lsb2,
    ensures
        bits64(with_bits64(word, msb, lsb, value), msb2, lsb2) == bits64(word, msb2, lsb2),
{
}

/// A range of `n` bits holds a number below `2^n`; stated for the widths of
/// the integer types that fields are read into.
pub proof fn lemma_bits64_bound(word: u64, msb: u64, lsb: u64)
    by (bit_vector)
    requires
        lsb <= msb < 64,
    ensures
        msb - lsb < 1 ==> bits64(word, msb, lsb) <= 1,
        msb - lsb < 8 ==> bits64(word, msb, lsb) <= 0xff,
        msb - lsb < 16 ==> bits64(word, msb, lsb) <= 0xffff,
{
}

/// A value that fits the range is stored whole; stated for the widths of
/// the fields that registers and TRBs have.
pub proof fn lemma_bits64_fit(msb: u64, lsb: u64, value: u64)
    by (bit_vector)
    requires
        lsb <= msb < 64,
    ensures
        value <= 1 ==> value & (u64::MAX >> ((63 - msb + lsb) as u64)) == value,
        msb - lsb >= 1 && value < 4 ==> value & (u64::MAX >> ((63 - msb + lsb) as u64)) == value,
        msb - lsb >= 2 && value < 8 ==> value & (u64::MAX >> ((63 - msb + lsb) as u64)) == value,
        msb - lsb >= 3 && value < 16 ==> value & (u64::MAX >> ((63 - msb + lsb) as u64)) == value,
        msb - lsb >= 5 && value < 64 ==> value & (u64::MAX >> ((63 - msb + lsb) as u64)) == value,
        msb - lsb >= 7 && value <= 0xff ==> value & (u64::MAX >> ((63 - msb + lsb) as u64)) == value,
        msb - lsb >= 15 && value <= 0xffff ==> value & (u64::MAX >> ((63 - msb + lsb) as u64)) == value,
{
}

/// What a range holds, as a number: the word divided by `2^lsb`, modulo two
/// to the number of bits of the range.
pub proof fn lemma_bits64_as_number(word: u64, msb: u64, lsb: u64)
    requires
        lsb <= msb < 64,
    ensures
        bits64(word, msb, lsb) == (word as nat / pow2(lsb as nat)) % pow2((msb - lsb + 1) as nat),
{
    let width = (msb - lsb + 1) as nat;
    let drop = (63 - msb + lsb) as u64;
    let shifted = word >> lsb;
    lemma_u64_shr_is_div(word, lsb);
    lemma_u64_shr_is_div(u64::MAX, drop);
    lemma_pow2_adds(drop as nat, width);
    lemma_pow2_pos(drop as nat);
    lemma_pow2_pos(width);
    lemma2_to64();
    lemma2_to64_rest();
    let a = pow2(drop as nat) as int;
    let b = pow2(width) as int;
    assert((a * b - 1) / a == b - 1) by (nonlinear_arith)
        requires
            a > 0,
            b > 0,
    ;
    assert(u64::MAX >> drop == low_bits_mask(width));
    if width < 64 {
        lemma_u64_low_bits_mask_is_mod(shifted, width);
    } else {
        assert(shifted & u64::MAX == shifted) by (bit_vector);
        assert(shifted as int % b == shifted) by (nonlinear_arith)
            requires
                0 <= shifted < b,
        ;
    }
}

/// The bits `63:lsb` of `word` in place: `word` with the bits below `lsb`
/// cleared.  Registers and TRBs hold aligned addresses this way.
pub open spec fn high_bits64(word: u64, lsb: u64) -> u64 {
    bits64(word, 63, lsb) << lsb
}

/// Reads the bits `63:lsb` of `word` in place.
pub fn get_high_bits64(word: u64, lsb: u64) -> (r: u64)
    requires
        lsb < 64,
    ensures
        r == high_bits64(word, lsb),
{
    get_bits64(word, 63, lsb) << lsb
}

/// Replaces the bits `63:lsb` of `word` by those of `value`.
pub fn set_high_bits64(word: u64, lsb: u64, value: u64) -> (r: u64)
    requires
        lsb < 64,
    ensures
        r == with_bits64(word, 63, lsb, value >> lsb),
{
    set_bits64(word, 63, lsb, value >> lsb)
}

/// The bits `63:4` in place are the word rounded down to a multiple of 16,
/// and the bits `63:6` the word rounded down to a multiple of 64.
pub proof fn lemma_high_bits64_rounds_down(word: u64)
    by (bit_vector)
    ensures
        high_bits64(word, 4) == word - word % 16,
        high_bits64(word, 6) == word - word % 64,
{
}

/// An address stored in the bits `63:4` (or `63:6`) reads back rounded down
/// to a multiple of 16 (or 64), whatever the word held before.
pub proof fn lemma_high_bits64_store(word: u64, value: u64)
    by (bit_vector)
    ensures
        high_bits64(with_bits64(word, 63, 4, value >> 4), 4) == value - value % 16,
        high_bits64(with_bits64(word, 63, 6, value >> 6), 6) == value - value % 64,
{
}

/// The low 32 bits of a 64-bit word.
pub open spec fn low_word(word: u64) -> u32 {
    (word & 0xffff_ffff) as u32
}

/// The low 32 bits of `word`: the word itself where it fits in 32 bits.
#[verifier::when_used_as_spec(low_word)]
pub fn get_low_word(word: u64) -> (r: u32)
    ensures
        r == low_word(word),
        word <= u32::MAX ==> r == word,
{
    let low = word & 0xffff_ffff;
    proof {
        lemma_low_word(word);
    }
    low as u32
}

/// The low 32 bits of a word fit in 32 bits, and are the word where it does.
pub proof fn lemma_low_word(word: u64)
    by (bit_vector)
    ensures
        word & 0xffff_ffff <= 0xffff_ffff,
        word <= 0xffff_ffff ==> word & 0xffff_ffff == word,
{
}

} // verus!
