//! Two's-complement arithmetic helpers shared by the execution engine:
//! signed views of raw register bit patterns, sign extension, and the
//! multiply-high / divide / remainder operations of the instruction set.
use vstd::prelude::*;

verus! {

use vstd::arithmetic::div_mod::{
    lemma_small_mod,
    lemma_mod_multiples_vanish,
    lemma_multiply_divide_lt,
    lemma_div_pos_is_pos,
    lemma_hoist_over_denominator,
    lemma_div_is_ordered,
    lemma_mul_mod_noop_general,
    lemma_div_multiples_vanish,
    lemma_div_multiples_vanish_fancy,
    lemma_div_nonincreasing,
    lemma_basic_div,
};
use vstd::arithmetic::mul::{lemma_mul_upper_bound, lemma_mul_inequality};
use vstd::arithmetic::power2::{pow2, lemma_pow2_adds, lemma2_to64, lemma2_to64_rest};
use vstd::bits::{
    lemma_u64_shr_is_div,
    lemma_u64_pow2_no_overflow,
    lemma_u32_shr_is_div,
    lemma_u32_pow2_no_overflow,
};

/// The signed 64-bit value that the raw bit pattern `v` represents in
/// two's complement.
pub open spec fn s64(v: u64) -> int {
    if v >= 0x8000_0000_0000_0000 {
        v - 0x1_0000_0000_0000_0000
    } else {
        v as int
    }
}

/// The signed 32-bit value that the raw bit pattern `v` represents in
/// two's complement.
pub open spec fn s32(v: u32) -> int {
    if v >= 0x8000_0000 {
        v - 0x1_0000_0000
    } else {
        v as int
    }
}

/// The raw 64-bit bit pattern of the integer `v`, reduced modulo 2^64.
pub open spec fn to_u64(v: int) -> u64 {
    (v % 0x1_0000_0000_0000_0000) as u64
}

/// The raw 32-bit bit pattern of the integer `v`, reduced modulo 2^32.
pub open spec fn to_u32(v: int) -> u32 {
    (v % 0x1_0000_0000) as u32
}

/// The low 32 bits of a 64-bit value.
pub open spec fn low32(v: u64) -> u32 {
    (v % 0x1_0000_0000) as u32
}

/// Sign extension of a 32-bit value to 64 bits.
pub open spec fn sext32(v: u32) -> u64 {
    to_u64(s32(v))
}

/// The low 32 bits of a 64-bit value, as executable code.
pub fn low_word(v: u64) -> (r: u32)
    ensures
        r == low32(v),
{
    (v % 0x1_0000_0000) as u32
}

/// Sign extension of a 32-bit value to 64 bits, as executable code.
pub fn sign_extend_word(v: u32) -> (r: u64)
    ensures
        r == sext32(v),
{
    if v < 0x8000_0000 {
        v as u64
    } else {
        (v as u64) + 0xFFFF_FFFF_0000_0000
    }
}

/// Sign extension of a byte to 64 bits.
pub open spec fn sext8(v: u8) -> u64 {
    if v >= 0x80 {
        (v + 0xFFFF_FFFF_FFFF_FF00) as u64
    } else {
        v as u64
    }
}

/// Sign extension of a byte to 64 bits, as executable code.
pub fn sign_extend_byte(v: u8) -> (r: u64)
    ensures
        r == sext8(v),
{
    if v < 0x80 {
        v as u64
    } else {
        (v as u64) + 0xFFFF_FFFF_FFFF_FF00
    }
}

/// Sign extension of a 16-bit value to 64 bits.
pub open spec fn sext16(v: u16) -> u64 {
    if v >= 0x8000 {
        (v + 0xFFFF_FFFF_FFFF_0000) as u64
    } else {
        v as u64
    }
}

/// Sign extension of a 16-bit value to 64 bits, as executable code.
pub fn sign_extend_half(v: u16) -> (r: u64)
    ensures
        r == sext16(v),
{
    if v < 0x8000 {
        v as u64
    } else {
        (v as u64) + 0xFFFF_FFFF_FFFF_0000
    }
}

/// Whether `a` is strictly below `b` when both raw patterns are read as
/// signed 64-bit values.
pub fn signed_less_than(a: u64, b: u64) -> (r: bool)
    ensures
        r == (s64(a) < s64(b)),
{
    let a_neg = a >= 0x8000_0000_0000_0000;
    let b_neg = b >= 0x8000_0000_0000_0000;
    if a_neg == b_neg {
        a < b
    } else {
        a_neg
    }
}

/// A 64-bit value whose upper half is a sign extension of its lower half is
/// reproduced exactly by truncating to 32 bits and sign-extending again.
pub proof fn lemma_sext32_low32(v: u64)
    requires
        v < 0x8000_0000 || v >= 0xFFFF_FFFF_8000_0000,
    ensures
        sext32(low32(v)) == v,
{
    if v < 0x8000_0000 {
        lemma_small_mod(v as nat, 0x1_0000_0000nat);
        lemma_small_mod(v as nat, 0x1_0000_0000_0000_0000nat);
    } else {
        lemma_mod_multiples_vanish(-0xFFFF_FFFF, v as int, 0x1_0000_0000);
        lemma_small_mod((v - 0xFFFF_FFFF_0000_0000) as nat, 0x1_0000_0000nat);
        assert(v % 0x1_0000_0000 == v - 0xFFFF_FFFF_0000_0000);
        lemma_mod_multiples_vanish(1, v - 0x1_0000_0000_0000_0000, 0x1_0000_0000_0000_0000);
        lemma_small_mod(v as nat, 0x1_0000_0000_0000_0000nat);
    }
}

/// A six-bit or five-bit mask always yields a shift amount within the
/// matching register width.
pub proof fn lemma_shift_mask_bounds()
    by (bit_vector)
    ensures
        forall|b: u64| #[trigger] (b & 0x3F) < 64,
        forall|b: u64| #[trigger] (b & 0x1F) < 32,
{
}

/// The magnitude of an integer.
pub open spec fn mag(a: int) -> int {
    if a < 0 {
        -a
    } else {
        a
    }
}

/// Truncated (round-toward-zero) division of `a` by `b`, for `b != 0`.
pub open spec fn tdiv(a: int, b: int) -> int {
    if (a < 0) == (b < 0) {
        mag(a) / mag(b)
    } else {
        -(mag(a) / mag(b))
    }
}

/// Truncated remainder of `a` by `b`, for `b != 0`: it carries the sign of
/// the dividend, so that `a == b * tdiv(a, b) + tmod(a, b)`.
pub open spec fn tmod(a: int, b: int) -> int {
    if a < 0 {
        -(mag(a) % mag(b))
    } else {
        mag(a) % mag(b)
    }
}

/// Signed 64-bit division: division by zero yields the all-ones pattern
/// (-1), and overflow (most negative value divided by -1) wraps back to the
/// most negative value.
pub open spec fn div_signed_spec(a: u64, b: u64) -> u64 {
    if b == 0 {
        0xFFFF_FFFF_FFFF_FFFF
    } else {
        to_u64(tdiv(s64(a), s64(b)))
    }
}

/// Signed 64-bit remainder: remainder by zero yields the dividend unchanged.
pub open spec fn rem_signed_spec(a: u64, b: u64) -> u64 {
    if b == 0 {
        a
    } else {
        to_u64(tmod(s64(a), s64(b)))
    }
}

/// Unsigned 64-bit division: division by zero yields the all-ones pattern.
pub open spec fn div_unsigned_spec(a: u64, b: u64) -> u64 {
    if b == 0 {
        0xFFFF_FFFF_FFFF_FFFF
    } else {
        (a as int / b as int) as u64
    }
}

/// Unsigned 64-bit remainder: remainder by zero yields the dividend.
pub open spec fn rem_unsigned_spec(a: u64, b: u64) -> u64 {
    if b == 0 {
        a
    } else {
        (a as int % b as int) as u64
    }
}

/// Unsigned 64-bit division with the division-by-zero contract above.
pub fn div_unsigned(a: u64, b: u64) -> (r: u64)
    ensures
        r == div_unsigned_spec(a, b),
{
    if b == 0 {
        0xFFFF_FFFF_FFFF_FFFF
    } else {
        a / b
    }
}

/// Unsigned 64-bit remainder with the remainder-by-zero contract above.
pub fn rem_unsigned(a: u64, b: u64) -> (r: u64)
    ensures
        r == rem_unsigned_spec(a, b),
{
    if b == 0 {
        a
    } else {
        a % b
    }
}

/// The magnitude of the signed value that `a` represents, as a raw pattern.
fn magnitude64(a: u64) -> (r: u64)
    ensures
        r == mag(s64(a)),
{
    if a >= 0x8000_0000_0000_0000 {
        0u64.wrapping_sub(a)
    } else {
        a
    }
}

/// Wraps a quotient or remainder magnitude back into a raw two's-complement
/// pattern with the requested sign.
fn apply_sign64(q: u64, negative: bool) -> (r: u64)
    ensures
        r == to_u64(if negative { -(q as int) } else { q as int }),
{
    proof {
        lemma_small_mod(q as nat, 0x1_0000_0000_0000_0000nat);
        if q > 0 {
            lemma_mod_multiples_vanish(1, -(q as int), 0x1_0000_0000_0000_0000);
            lemma_small_mod((0x1_0000_0000_0000_0000 - q) as nat, 0x1_0000_0000_0000_0000nat);
        }
    }
    if negative {
        0u64.wrapping_sub(q)
    } else {
        q
    }
}

/// Signed 64-bit division with the division-by-zero contract above.
pub fn div_signed(a: u64, b: u64) -> (r: u64)
    ensures
        r == div_signed_spec(a, b),
{
    if b == 0 {
        return 0xFFFF_FFFF_FFFF_FFFF;
    }
    let ma = magnitude64(a);
    let mb = magnitude64(b);
    let q = ma / mb;
    apply_sign64(q, (a >= 0x8000_0000_0000_0000) != (b >= 0x8000_0000_0000_0000))
}

/// Signed 64-bit remainder with the remainder-by-zero contract above.
pub fn rem_signed(a: u64, b: u64) -> (r: u64)
    ensures
        r == rem_signed_spec(a, b),
{
    if b == 0 {
        return a;
    }
    let ma = magnitude64(a);
    let mb = magnitude64(b);
    let m = ma % mb;
    apply_sign64(m, a >= 0x8000_0000_0000_0000)
}

/// Signed 32-bit division: division by zero yields the all-ones pattern,
/// and overflow wraps back to the most negative 32-bit value.
pub open spec fn div_signed32_spec(a: u32, b: u32) -> u32 {
    if b == 0 {
        0xFFFF_FFFF
    } else {
        to_u32(tdiv(s32(a), s32(b)))
    }
}

/// Signed 32-bit remainder: remainder by zero yields the dividend unchanged.
pub open spec fn rem_signed32_spec(a: u32, b: u32) -> u32 {
    if b == 0 {
        a
    } else {
        to_u32(tmod(s32(a), s32(b)))
    }
}

/// Unsigned 32-bit division: division by zero yields the all-ones pattern.
pub open spec fn div_unsigned32_spec(a: u32, b: u32) -> u32 {
    if b == 0 {
        0xFFFF_FFFF
    } else {
        (a as int / b as int) as u32
    }
}

/// Unsigned 32-bit remainder: remainder by zero yields the dividend.
pub open spec fn rem_unsigned32_spec(a: u32, b: u32) -> u32 {
    if b == 0 {
        a
    } else {
        (a as int % b as int) as u32
    }
}

/// Unsigned 32-bit division with the division-by-zero contract above.
pub fn div_unsigned32(a: u32, b: u32) -> (r: u32)
    ensures
        r == div_unsigned32_spec(a, b),
{
    if b == 0 {
        0xFFFF_FFFF
    } else {
        a / b
    }
}

/// Unsigned 32-bit remainder with the remainder-by-zero contract above.
pub fn rem_unsigned32(a: u32, b: u32) -> (r: u32)
    ensures
        r == rem_unsigned32_spec(a, b),
{
    if b == 0 {
        a
    } else {
        a % b
    }
}

/// The magnitude of the signed value that `a` represents, as a raw pattern.
fn magnitude32(a: u32) -> (r: u32)
    ensures
        r == mag(s32(a)),
{
    if a >= 0x8000_0000 {
        0u32.wrapping_sub(a)
    } else {
        a
    }
}

/// Wraps a 32-bit quotient or remainder magnitude back into a raw
/// two's-complement pattern with the requested sign.
fn apply_sign32(q: u32, negative: bool) -> (r: u32)
    ensures
        r == to_u32(if negative { -(q as int) } else { q as int }),
{
    proof {
        lemma_small_mod(q as nat, 0x1_0000_0000nat);
        if q > 0 {
            lemma_mod_multiples_vanish(1, -(q as int), 0x1_0000_0000);
            lemma_small_mod((0x1_0000_0000 - q) as nat, 0x1_0000_0000nat);
        }
    }
    if negative {
        0u32.wrapping_sub(q)
    } else {
        q
    }
}

/// Signed 32-bit division with the division-by-zero contract above.
pub fn div_signed32(a: u32, b: u32) -> (r: u32)
    ensures
        r == div_signed32_spec(a, b),
{
    if b == 0 {
        return 0xFFFF_FFFF;
    }
    let ma = magnitude32(a);
    let mb = magnitude32(b);
    let q = ma / mb;
    apply_sign32(q, (a >= 0x8000_0000) != (b >= 0x8000_0000))
}

/// Signed 32-bit remainder with the remainder-by-zero contract above.
pub fn rem_signed32(a: u32, b: u32) -> (r: u32)
    ensures
        r == rem_signed32_spec(a, b),
{
    if b == 0 {
        return a;
    }
    let ma = magnitude32(a);
    let mb = magnitude32(b);
    let m = ma % mb;
    apply_sign32(m, a >= 0x8000_0000)
}

/// Law: division and remainder by zero never trap and have fixed results.
/// Signed and unsigned division by zero yield the all-ones pattern, which
/// reads as -1 signed and as the largest unsigned value; remainder by zero
/// yields the dividend unchanged, for every dividend.
pub proof fn lemma_division_by_zero(x: u64)
    ensures
        div_signed_spec(x, 0) == 0xFFFF_FFFF_FFFF_FFFFu64,
        s64(div_signed_spec(x, 0)) == -1,
        div_unsigned_spec(x, 0) == 0xFFFF_FFFF_FFFF_FFFFu64,
        rem_signed_spec(x, 0) == x,
        rem_unsigned_spec(x, 0) == x,
{
}

/// The high 64 bits of the full 128-bit product of two unsigned values.
pub open spec fn mulhu_spec(a: u64, b: u64) -> u64 {
    ((a * b) / 0x1_0000_0000_0000_0000) as u64
}

/// The high 64 bits of the full 128-bit product, signed times signed.
pub open spec fn mulh_spec(a: u64, b: u64) -> u64 {
    to_u64((s64(a) * s64(b)) / 0x1_0000_0000_0000_0000)
}

/// The high 64 bits of the full 128-bit product, signed times unsigned.
pub open spec fn mulhsu_spec(a: u64, b: u64) -> u64 {
    to_u64((s64(a) * b) / 0x1_0000_0000_0000_0000)
}

/// The high 64 bits of the unsigned 128-bit product of `a` and `b`.
pub fn mul_high_unsigned(a: u64, b: u64) -> (r: u64)
    ensures
        r == mulhu_spec(a, b),
{
    proof {
        lemma_mul_upper_bound(a as int, 0xFFFF_FFFF_FFFF_FFFF, b as int, 0xFFFF_FFFF_FFFF_FFFF);
        lemma_multiply_divide_lt(
            a as int * b as int,
            0x1_0000_0000_0000_0000,
            0x1_0000_0000_0000_0000,
        );
        lemma_mul_inequality(0, a as int, b as int);
    }
    let p: u128 = (a as u128) * (b as u128);
    (p / 0x1_0000_0000_0000_0000u128) as u64
}

/// The signed value that `a` represents, wrapped into a raw 128-bit pattern.
fn widen_signed(a: u64) -> (r: u128)
    ensures
        r as int == s64(a) % 0x1_0000_0000_0000_0000_0000_0000_0000_0000int,
{
    if a < 0x8000_0000_0000_0000 {
        proof {
            lemma_small_mod(a as nat, 0x1_0000_0000_0000_0000_0000_0000_0000_0000nat);
        }
        a as u128
    } else {
        proof {
            lemma_mod_multiples_vanish(
                1,
                s64(a),
                0x1_0000_0000_0000_0000_0000_0000_0000_0000int,
            );
            lemma_small_mod(
                (s64(a) + 0x1_0000_0000_0000_0000_0000_0000_0000_0000int) as nat,
                0x1_0000_0000_0000_0000_0000_0000_0000_0000nat,
            );
        }
        (a as u128) + 0xFFFF_FFFF_FFFF_FFFF_0000_0000_0000_0000u128
    }
}

/// The high word of a product wrapped to 128 bits equals the wrapped high
/// word of the mathematical product, for products in the signed 128-bit
/// range.
proof fn lemma_high_word_of_wrapped(m: int)
    requires
        -0x8000_0000_0000_0000_0000_0000_0000_0000int <= m
            < 0x8000_0000_0000_0000_0000_0000_0000_0000int,
    ensures
        (m % 0x1_0000_0000_0000_0000_0000_0000_0000_0000int) / 0x1_0000_0000_0000_0000 == (m
            / 0x1_0000_0000_0000_0000) % 0x1_0000_0000_0000_0000,
{
    let two64 = 0x1_0000_0000_0000_0000;
    let two128 = 0x1_0000_0000_0000_0000_0000_0000_0000_0000int;
    if m >= 0 {
        lemma_small_mod(m as nat, two128 as nat);
        lemma_multiply_divide_lt(m, two64, two64);
        lemma_div_pos_is_pos(m, two64);
        lemma_small_mod((m / two64) as nat, two64 as nat);
    } else {
        lemma_mod_multiples_vanish(1, m, two128);
        lemma_small_mod((m + two128) as nat, two128 as nat);
        lemma_hoist_over_denominator(m, two64, two64 as nat);
        assert(m / two64 + two64 == (m + two64 * two64) / two64);
        lemma_div_is_ordered(-0x8000_0000_0000_0000_0000_0000_0000_0000int, m, two64);
        lemma_div_multiples_vanish(-0x8000_0000_0000_0000, two64);
        assert(two64 * (-0x8000_0000_0000_0000) == -0x8000_0000_0000_0000_0000_0000_0000_0000int);
        lemma_div_is_ordered(m, -1, two64);
        lemma_hoist_over_denominator(-1, 1, two64 as nat);
        lemma_basic_div(two64 - 1, two64);
        lemma_mod_multiples_vanish(1, m / two64, two64);
        lemma_small_mod((m / two64 + two64) as nat, two64 as nat);
    }
}

/// The high 64 bits of the 128-bit product, both factors read as signed.
pub fn mul_high_signed(a: u64, b: u64) -> (r: u64)
    ensures
        r == mulh_spec(a, b),
{
    let wa = widen_signed(a);
    let wb = widen_signed(b);
    let p = wa.wrapping_mul(wb);
    proof {
        let two128 = 0x1_0000_0000_0000_0000_0000_0000_0000_0000int;
        let m = s64(a) * s64(b);
        lemma_mul_mod_noop_general(s64(a), s64(b), two128);
        assert(p as int == m % two128);
        assert(-0x8000_0000_0000_0000_0000_0000_0000_0000int <= m
            < 0x8000_0000_0000_0000_0000_0000_0000_0000int) by (nonlinear_arith)
            requires
                -0x8000_0000_0000_0000 <= s64(a) < 0x8000_0000_0000_0000,
                -0x8000_0000_0000_0000 <= s64(b) < 0x8000_0000_0000_0000,
                m == s64(a) * s64(b),
        ;
        lemma_high_word_of_wrapped(m);
    }
    (p / 0x1_0000_0000_0000_0000u128) as u64
}

/// Arithmetic right shift of a 64-bit pattern: the vacated high bits are
/// filled with copies of the sign bit.
pub open spec fn sra64_spec(v: u64, s: u64) -> u64 {
    if v < 0x8000_0000_0000_0000 {
        v >> s
    } else {
        (v >> s) | !(0xFFFF_FFFF_FFFF_FFFFu64 >> s)
    }
}

/// Arithmetic right shift of a 64-bit pattern, as executable code.
pub fn shift_right_arithmetic(v: u64, s: u64) -> (r: u64)
    requires
        s < 64,
    ensures
        r == sra64_spec(v, s),
{
    if v < 0x8000_0000_0000_0000 {
        v >> s
    } else {
        (v >> s) | !(0xFFFF_FFFF_FFFF_FFFFu64 >> s)
    }
}

/// Arithmetic right shift of a 32-bit pattern.
pub open spec fn sra32_spec(v: u32, s: u32) -> u32 {
    if v < 0x8000_0000 {
        v >> s
    } else {
        (v >> s) | !(0xFFFF_FFFFu32 >> s)
    }
}

/// Arithmetic right shift of a 32-bit pattern, as executable code.
pub fn shift_right_arithmetic32(v: u32, s: u32) -> (r: u32)
    requires
        s < 32,
    ensures
        r == sra32_spec(v, s),
{
    if v < 0x8000_0000 {
        v >> s
    } else {
        (v >> s) | !(0xFFFF_FFFFu32 >> s)
    }
}

/// Law: the arithmetic right shift computes signed division by a power of
/// two, rounded toward negative infinity, for every raw pattern and every
/// shift amount within the register width.
pub proof fn lemma_sra_is_signed_division(v: u64, s: u64)
    requires
        s < 64,
    ensures
        s64(sra64_spec(v, s)) == s64(v) / (pow2(s as nat) as int),
{
    let d = pow2(s as nat) as int;
    lemma_u64_pow2_no_overflow(s as nat);
    lemma_u64_shr_is_div(v, s);
    if v < 0x8000_0000_0000_0000 {
        lemma_div_nonincreasing(v as int, d);
        lemma_div_pos_is_pos(v as int, d);
    } else {
        lemma_u64_shr_is_div(0xFFFF_FFFF_FFFF_FFFFu64, s);
        lemma_pow2_adds(s as nat, (64 - s) as nat);
        lemma_pow2_adds(1, (63 - s) as nat);
        lemma_pow2_adds(s as nat, (63 - s) as nat);
        lemma2_to64();
        lemma2_to64_rest();
        let q = pow2((64 - s) as nat) as int;
        let h = pow2((63 - s) as nat) as int;
        assert(d * q == 0x1_0000_0000_0000_0000);
        assert(d * h == 0x8000_0000_0000_0000);
        assert(q == 2 * h);
        // The all-ones pattern shifted right holds q - 1.
        lemma_div_multiples_vanish_fancy(q - 1, d - 1, d);
        assert(d * (q - 1) + (d - 1) == d * q - 1) by (nonlinear_arith);
        assert(d * (q - 1) + (d - 1) == 0xFFFF_FFFF_FFFF_FFFF);
        // Filling the vacated bits adds the complement of that mask.
        assert(((v >> s) | !(0xFFFF_FFFF_FFFF_FFFFu64 >> s)) == (v >> s) + (
        0xFFFF_FFFF_FFFF_FFFFu64 - (0xFFFF_FFFF_FFFF_FFFFu64 >> s))) by (bit_vector)
            requires
                s < 64u64,
        ;
        let r = sra64_spec(v, s);
        assert(r == v as int / d + 0x1_0000_0000_0000_0000 - q);
        // The result stays in the negative half: the quotient of the sign
        // half is at least h.
        lemma_div_is_ordered(0x8000_0000_0000_0000, v as int, d);
        lemma_div_multiples_vanish(h, d);
        assert(v as int / d >= h);
        assert(r >= 0x8000_0000_0000_0000);
        // Subtracting the full range once turns the pattern back into the
        // signed quotient.
        lemma_hoist_over_denominator(v as int, -q, d as nat);
        assert((v as int) + (-q) * d == v - d * q) by (nonlinear_arith);
        assert(v as int / d - q == (v - 0x1_0000_0000_0000_0000) / d);
    }
}

/// Law: the 32-bit arithmetic right shift computes signed division by a
/// power of two, rounded toward negative infinity.
pub proof fn lemma_sra32_is_signed_division(v: u32, s: u32)
    requires
        s < 32,
    ensures
        s32(sra32_spec(v, s)) == s32(v) / (pow2(s as nat) as int),
{
    let d = pow2(s as nat) as int;
    lemma_u32_pow2_no_overflow(s as nat);
    lemma_u32_shr_is_div(v, s);
    if v < 0x8000_0000 {
        lemma_div_nonincreasing(v as int, d);
        lemma_div_pos_is_pos(v as int, d);
    } else {
        lemma_u32_shr_is_div(0xFFFF_FFFFu32, s);
        lemma_pow2_adds(s as nat, (32 - s) as nat);
        lemma_pow2_adds(1, (31 - s) as nat);
        lemma_pow2_adds(s as nat, (31 - s) as nat);
        lemma2_to64();
        let q = pow2((32 - s) as nat) as int;
        let h = pow2((31 - s) as nat) as int;
        assert(d * q == 0x1_0000_0000);
        assert(d * h == 0x8000_0000);
        assert(q == 2 * h);
        lemma_div_multiples_vanish_fancy(q - 1, d - 1, d);
        assert(d * (q - 1) + (d - 1) == d * q - 1) by (nonlinear_arith);
        assert(d * (q - 1) + (d - 1) == 0xFFFF_FFFF);
        assert(((v >> s) | !(0xFFFF_FFFFu32 >> s)) == (v >> s) + (0xFFFF_FFFFu32 - (0xFFFF_FFFFu32
            >> s))) by (bit_vector)
            requires
                s < 32u32,
        ;
        let r = sra32_spec(v, s);
        assert(r == v as int / d + 0x1_0000_0000 - q);
        lemma_div_is_ordered(0x8000_0000, v as int, d);
        lemma_div_multiples_vanish(h, d);
        assert(v as int / d >= h);
        assert(r >= 0x8000_0000);
        lemma_hoist_over_denominator(v as int, -q, d as nat);
        assert((v as int) + (-q) * d == v - d * q) by (nonlinear_arith);
        assert(v as int / d - q == (v - 0x1_0000_0000) / d);
    }
}

/// The high 64 bits of the 128-bit product, `a` read as signed and `b` as
/// unsigned.
pub fn mul_high_signed_unsigned(a: u64, b: u64) -> (r: u64)
    ensures
        r == mulhsu_spec(a, b),
{
    let wa = widen_signed(a);
    let p = wa.wrapping_mul(b as u128);
    proof {
        let two128 = 0x1_0000_0000_0000_0000_0000_0000_0000_0000int;
        let m = s64(a) * b;
        lemma_mul_mod_noop_general(s64(a), b as int, two128);
        lemma_small_mod(b as nat, two128 as nat);
        assert(p as int == m % two128);
        assert(-0x8000_0000_0000_0000_0000_0000_0000_0000int <= m
            < 0x8000_0000_0000_0000_0000_0000_0000_0000int) by (nonlinear_arith)
            requires
                -0x8000_0000_0000_0000 <= s64(a) < 0x8000_0000_0000_0000,
                0 <= b < 0x1_0000_0000_0000_0000,
                m == s64(a) * b,
        ;
        lemma_high_word_of_wrapped(m);
    }
    (p / 0x1_0000_0000_0000_0000u128) as u64
}

} // verus!
