use vstd::arithmetic::div_mod::{
    lemma_div_multiples_vanish, lemma_div_multiples_vanish_fancy, lemma_hoist_over_denominator,
};
use vstd::arithmetic::power2::{lemma2_to64, lemma2_to64_rest, lemma_pow2_adds, lemma_pow2_pos, pow2};
use vstd::bits::lemma_u64_shr_is_div;
use vstd::prelude::*;

verus! {

/// The value of a 64-bit pattern read as a two's-complement number.
pub open spec fn signed64(bits: u64) -> int {
    if bits < 0x8000_0000_0000_0000 {
        bits as int
    } else {
        bits as int - 0x1_0000_0000_0000_0000
    }
}

/// The value of a 32-bit pattern read as a two's-complement number.
pub open spec fn signed32(bits: u32) -> int {
    if bits < 0x8000_0000 {
        bits as int
    } else {
        bits as int - 0x1_0000_0000
    }
}

/// The 64-bit pattern of an integer: its residue modulo 2^64.
pub open spec fn wrap64(value: int) -> u64 {
    (value % 0x1_0000_0000_0000_0000) as u64
}

/// The 32-bit pattern of an integer: its residue modulo 2^32.
pub open spec fn wrap32(value: int) -> u32 {
    (value % 0x1_0000_0000) as u32
}

/// The low 32 bits of a register.
pub open spec fn low32(bits: u64) -> u32 {
    (bits % 0x1_0000_0000) as u32
}

/// A 32-bit pattern sign-extended to 64 bits.
pub open spec fn sext32(bits: u32) -> u64 {
    wrap64(signed32(bits))
}

/// A 16-bit pattern sign-extended to 64 bits.
pub open spec fn sext16(bits: u16) -> u64 {
    if bits < 0x8000 {
        bits as u64
    } else {
        wrap64(bits as int - 0x1_0000)
    }
}

/// An 8-bit pattern sign-extended to 64 bits.
pub open spec fn sext8(bits: u8) -> u64 {
    if bits < 0x80 {
        bits as u64
    } else {
        wrap64(bits as int - 0x100)
    }
}

/// The quotient of `a` by `b` rounded towards zero.
pub open spec fn trunc_div(a: int, b: int) -> int {
    if a >= 0 && b > 0 {
        a / b
    } else if a >= 0 && b < 0 {
        -(a / (-b))
    } else if a < 0 && b > 0 {
        -((-a) / b)
    } else {
        (-a) / (-b)
    }
}

/// The remainder that goes with [`trunc_div`]; it has the sign of `a`.
pub open spec fn trunc_rem(a: int, b: int) -> int {
    let magnitude = if b < 0 {
        -b
    } else {
        b
    };
    if a >= 0 {
        a % magnitude
    } else {
        -((-a) % magnitude)
    }
}

/// A 64-bit pattern shifted right by `shift` places with copies of its
/// sign bit shifted in.
pub open spec fn sra64(bits: u64, shift: u64) -> u64 {
    if bits < 0x8000_0000_0000_0000 {
        bits >> shift
    } else {
        (bits >> shift) | !(0xFFFF_FFFF_FFFF_FFFFu64 >> shift)
    }
}

/// A 32-bit pattern shifted right by `shift` places with copies of its
/// sign bit shifted in.
pub open spec fn sra32(bits: u32, shift: u32) -> u32 {
    if bits < 0x8000_0000 {
        bits >> shift
    } else {
        (bits >> shift) | !(0xFFFF_FFFFu32 >> shift)
    }
}

proof fn lemma_shift_right_arithmetic(wide: u64, narrow: u32, shift: u64, small: u32)
    by (bit_vector)
    requires
        shift < 64,
        small < 32,
    ensures
        wide < 0x8000_0000_0000_0000u64 ==> (((wide as i64) >> shift) as u64) == wide >> shift,
        wide >= 0x8000_0000_0000_0000u64 ==> (((wide as i64) >> shift) as u64) == (wide >> shift)
            | !(0xFFFF_FFFF_FFFF_FFFFu64 >> shift),
        narrow < 0x8000_0000u32 ==> (((narrow as i32) >> small) as u32) == narrow >> small,
        narrow >= 0x8000_0000u32 ==> (((narrow as i32) >> small) as u32) == (narrow >> small) | !(
        0xFFFF_FFFFu32 >> small),
{
}

proof fn lemma_sign_fill(bits: u64, shift: u64)
    by (bit_vector)
    requires
        shift < 64,
        bits >= 0x8000_0000_0000_0000u64,
    ensures
        ((bits >> shift) | !(0xFFFF_FFFF_FFFF_FFFFu64 >> shift)) == (bits >> shift) + (
        0xFFFF_FFFF_FFFF_FFFFu64 - (0xFFFF_FFFF_FFFF_FFFFu64 >> shift)),
        (bits >> shift) <= (0xFFFF_FFFF_FFFF_FFFFu64 >> shift),
        ((bits >> shift) | !(0xFFFF_FFFF_FFFF_FFFFu64 >> shift)) >= 0x8000_0000_0000_0000u64,
{
}

/// The arithmetic right shift divides: shifting a pattern right by
/// `shift` places with its sign bit shifted in gives the pattern of the
/// number it stands for divided by 2^`shift`, rounded down.
pub proof fn lemma_sra_divides(bits: u64, shift: u64)
    requires
        shift < 64,
    ensures
        signed64(sra64(bits, shift)) == signed64(bits) / (pow2(shift as nat) as int),
{
    let p = pow2(shift as nat) as int;
    let q = pow2((64 - shift) as nat) as int;
    let m = 0x1_0000_0000_0000_0000int;
    lemma_pow2_pos(shift as nat);
    lemma_pow2_pos((64 - shift) as nat);
    lemma_u64_shr_is_div(bits, shift);
    lemma_u64_shr_is_div(0xFFFF_FFFF_FFFF_FFFFu64, shift);
    if bits >= 0x8000_0000_0000_0000 {
        lemma_sign_fill(bits, shift);
        lemma_pow2_adds(shift as nat, (64 - shift) as nat);
        lemma2_to64();
        lemma2_to64_rest();
        assert(p * q == m);
        // the largest pattern divided by p is q - 1
        lemma_div_multiples_vanish_fancy(q - 1, p - 1, p);
        assert(p * (q - 1) + (p - 1) == m - 1) by (nonlinear_arith)
            requires
                p * q == m,
        ;
        // taking 2^64 from the dividend takes q from the quotient
        lemma_hoist_over_denominator(bits as int, -q, p as nat);
        assert(bits + (-q) * p == bits - m) by (nonlinear_arith)
            requires
                p * q == m,
        ;
    }
}

/// Shifts `bits` right by `shift` places, copying the sign bit in.
pub fn shift_right_arithmetic(bits: u64, shift: u64) -> (shifted: u64)
    requires
        shift < 64,
    ensures
        shifted == sra64(bits, shift),
{
    proof {
        lemma_shift_right_arithmetic(bits, 0, shift, 0);
    }
    let signed = #[verifier::truncate] (bits as i64);
    let moved = signed >> shift;
    #[verifier::truncate] (moved as u64)
}

/// Shifts the 32-bit `bits` right by `shift` places, copying the sign
/// bit in.
pub fn shift_right_arithmetic_word(bits: u32, shift: u32) -> (shifted: u32)
    requires
        shift < 32,
    ensures
        shifted == sra32(bits, shift),
{
    proof {
        lemma_shift_right_arithmetic(0, bits, 0, shift);
    }
    let signed = #[verifier::truncate] (bits as i32);
    let moved = signed >> shift;
    #[verifier::truncate] (moved as u32)
}

/// Returns whether `a` is below `b`, both read as two's-complement
/// numbers.
pub fn signed_less_than(a: u64, b: u64) -> (less: bool)
    ensures
        less == (signed64(a) < signed64(b)),
{
    let a_negative = a >= 0x8000_0000_0000_0000;
    let b_negative = b >= 0x8000_0000_0000_0000;
    if a_negative != b_negative {
        a_negative
    } else {
        a < b
    }
}

/// Returns whether `a` is below `b`, both read as 32-bit
/// two's-complement numbers.
pub fn signed_less_than_word(a: u32, b: u32) -> (less: bool)
    ensures
        less == (signed32(a) < signed32(b)),
{
    let a_negative = a >= 0x8000_0000;
    let b_negative = b >= 0x8000_0000;
    if a_negative != b_negative {
        a_negative
    } else {
        a < b
    }
}

/// Returns the low 32 bits of `bits`.
pub fn low_word(bits: u64) -> (word: u32)
    ensures
        word == low32(bits),
{
    (bits % 0x1_0000_0000) as u32
}

/// Sign-extends the 32-bit `bits` to 64 bits.
pub fn sign_extend_word(bits: u32) -> (extended: u64)
    ensures
        extended == sext32(bits),
{
    if bits < 0x8000_0000 {
        bits as u64
    } else {
        0xFFFF_FFFF_0000_0000 + (bits as u64)
    }
}

/// Sign-extends the 16-bit `bits` to 64 bits.
pub fn sign_extend_half(bits: u16) -> (extended: u64)
    ensures
        extended == sext16(bits),
{
    if bits < 0x8000 {
        bits as u64
    } else {
        0xFFFF_FFFF_FFFF_0000 + (bits as u64)
    }
}

/// Sign-extends the 8-bit `bits` to 64 bits.
pub fn sign_extend_byte(bits: u8) -> (extended: u64)
    ensures
        extended == sext8(bits),
{
    if bits < 0x80 {
        bits as u64
    } else {
        0xFFFF_FFFF_FFFF_FF00 + (bits as u64)
    }
}

/// Returns the size of `bits` read as a two's-complement number: the
/// number itself where it is not negative, else its negation.
pub fn magnitude(bits: u64) -> (size: u64)
    ensures
        signed64(bits) >= 0 ==> size == signed64(bits),
        signed64(bits) < 0 ==> size == -signed64(bits),
{
    if bits < 0x8000_0000_0000_0000 {
        bits
    } else {
        0u64.wrapping_sub(bits)
    }
}

/// Returns the pattern of `-size`.
pub fn negated(size: u64) -> (bits: u64)
    ensures
        bits == wrap64(-(size as int)),
{
    0u64.wrapping_sub(size)
}

/// Divides `a` by `b`, both read as two's-complement numbers, rounding
/// towards zero, and returns the pattern of the quotient.
pub fn signed_quotient(a: u64, b: u64) -> (quotient: u64)
    requires
        b != 0,
    ensures
        quotient == wrap64(trunc_div(signed64(a), signed64(b))),
{
    let size = magnitude(a) / magnitude(b);
    if (a >= 0x8000_0000_0000_0000) != (b >= 0x8000_0000_0000_0000) {
        negated(size)
    } else {
        size
    }
}

/// Returns the pattern of the remainder that goes with
/// [`signed_quotient`].
pub fn signed_remainder(a: u64, b: u64) -> (remainder: u64)
    requires
        b != 0,
    ensures
        remainder == wrap64(trunc_rem(signed64(a), signed64(b))),
{
    let size = magnitude(a) % magnitude(b);
    if a >= 0x8000_0000_0000_0000 {
        negated(size)
    } else {
        size
    }
}

/// Returns the size of the 32-bit `bits` read as a two's-complement
/// number.
pub fn magnitude_word(bits: u32) -> (size: u32)
    ensures
        signed32(bits) >= 0 ==> size == signed32(bits),
        signed32(bits) < 0 ==> size == -signed32(bits),
{
    if bits < 0x8000_0000 {
        bits
    } else {
        0u32.wrapping_sub(bits)
    }
}

/// Returns the 32-bit pattern of `-size`.
pub fn negated_word(size: u32) -> (bits: u32)
    ensures
        bits == wrap32(-(size as int)),
{
    0u32.wrapping_sub(size)
}

/// Divides `a` by `b`, both read as 32-bit two's-complement numbers,
/// rounding towards zero, and returns the pattern of the quotient.
pub fn signed_quotient_word(a: u32, b: u32) -> (quotient: u32)
    requires
        b != 0,
    ensures
        quotient == wrap32(trunc_div(signed32(a), signed32(b))),
{
    let size = magnitude_word(a) / magnitude_word(b);
    if (a >= 0x8000_0000) != (b >= 0x8000_0000) {
        negated_word(size)
    } else {
        size
    }
}

/// Returns the pattern of the remainder that goes with
/// [`signed_quotient_word`].
pub fn signed_remainder_word(a: u32, b: u32) -> (remainder: u32)
    requires
        b != 0,
    ensures
        remainder == wrap32(trunc_rem(signed32(a), signed32(b))),
{
    let size = magnitude_word(a) % magnitude_word(b);
    if a >= 0x8000_0000 {
        negated_word(size)
    } else {
        size
    }
}

/// Returns the upper 64 bits of the 128-bit product of `a` and `b`.
pub fn high_product(a: u64, b: u64) -> (high: u64)
    ensures
        high == (a * b) / 0x1_0000_0000_0000_0000,
{
    assert(a * b <= 0xFFFF_FFFF_FFFF_FFFF * 0xFFFF_FFFF_FFFF_FFFF) by (nonlinear_arith)
        requires
            a <= 0xFFFF_FFFF_FFFF_FFFF,
            b <= 0xFFFF_FFFF_FFFF_FFFF,
    ;
    let product: u128 = (a as u128) * (b as u128);
    assert((product >> 64) == product / 0x1_0000_0000_0000_0000) by (bit_vector);
    (product >> 64) as u64
}

} // verus!
