//! The IEEE 754 binary64 interchange format, read off a 64-bit pattern.
//!
//! Bit 63 is the sign, bits 52 to 62 the biased exponent and bits 0 to 51
//! the fraction.

use vstd::arithmetic::power2::{
    lemma_pow2_adds, lemma_pow2_pos, lemma_pow2_strictly_increases, lemma2_to64, pow2,
};
use vstd::prelude::*;

verus! {

/// The pattern whose only set bit is the sign.
pub const SIGN_BIT: u64 = 0x8000_0000_0000_0000;

/// The pattern in which every bit but the sign is set.
pub const MAGNITUDE_BITS: u64 = 0x7fff_ffff_ffff_ffff;

/// The pattern of positive infinity: the exponent field all ones, the fraction zero.
pub const INFINITY: u64 = 0x7ff0_0000_0000_0000;

/// Whether the sign bit is set.
pub open spec fn is_negative(bits: u64) -> bool {
    bits >= 0x8000_0000_0000_0000
}

/// The eleven bits of the exponent field.
pub open spec fn biased_exponent(bits: u64) -> nat {
    ((bits / 0x10_0000_0000_0000) % 0x800) as nat
}

/// The fifty-two bits of the fraction field.
pub open spec fn fraction(bits: u64) -> nat {
    (bits % 0x10_0000_0000_0000) as nat
}

/// Not a number: the exponent field is all ones and the fraction is not zero.
pub open spec fn is_nan(bits: u64) -> bool {
    biased_exponent(bits) == 0x7ff && fraction(bits) != 0
}

/// Positive or negative infinity: the exponent field is all ones and the fraction is zero.
pub open spec fn is_infinite(bits: u64) -> bool {
    biased_exponent(bits) == 0x7ff && fraction(bits) == 0
}

/// Zero, subnormal or normal: the exponent field is not all ones.
pub open spec fn is_finite(bits: u64) -> bool {
    biased_exponent(bits) < 0x7ff
}

/// Positive or negative zero.
pub open spec fn is_zero(bits: u64) -> bool {
    biased_exponent(bits) == 0 && fraction(bits) == 0
}

/// The significand of a finite pattern as an integer: the fraction, and for a
/// normal number the implicit leading one above it.
pub open spec fn significand(bits: u64) -> nat {
    if biased_exponent(bits) == 0 {
        fraction(bits)
    } else {
        0x10_0000_0000_0000 + fraction(bits)
    }
}

/// The power of two that scales the significand of a finite pattern, counted
/// from that of the subnormal numbers, which is -1074.
pub open spec fn scale(bits: u64) -> nat {
    if biased_exponent(bits) == 0 {
        0
    } else {
        (biased_exponent(bits) - 1) as nat
    }
}

/// The number that a finite pattern denotes, in units of two to the power -1074,
/// the least positive binary64 value. Every finite value is a whole number of them.
pub open spec fn units(bits: u64) -> int
    recommends
        is_finite(bits),
{
    let magnitude: nat = significand(bits) * pow2(scale(bits));
    if is_negative(bits) {
        -magnitude
    } else {
        magnitude as int
    }
}

/// Equality of two binary64 values as IEEE 754 defines it: a NaN equals
/// nothing, an infinity equals the infinity of its sign, and finite values are
/// equal when they denote the same number, so that the two zeros are equal.
pub open spec fn numerically_equal(a: u64, b: u64) -> bool {
    &&& !is_nan(a)
    &&& !is_nan(b)
    &&& is_finite(a) == is_finite(b)
    &&& if is_finite(a) {
        units(a) == units(b)
    } else {
        is_negative(a) == is_negative(b)
    }
}

/// The pattern that differs from `bits` in the sign and nowhere else.
pub open spec fn negated(bits: u64) -> u64 {
    if bits >= 0x8000_0000_0000_0000 {
        (bits - 0x8000_0000_0000_0000) as u64
    } else {
        (bits + 0x8000_0000_0000_0000) as u64
    }
}

/// Negation of a binary64 value: the sign is inverted, exponent and fraction
/// stay. A finite value becomes its opposite, an infinity the other infinity,
/// and a NaN keeps its payload.
pub fn negate(bits: u64) -> (r: u64)
    ensures
        r == negated(bits),
        is_negative(r) != is_negative(bits),
        biased_exponent(r) == biased_exponent(bits),
        fraction(r) == fraction(bits),
        is_finite(bits) ==> units(r) == -units(bits),
{
    let r: u64 = bits ^ SIGN_BIT;
    assert(r == negated(bits)) by (bit_vector)
        requires
            r == bits ^ 0x8000_0000_0000_0000u64,
    ;
    r
}

/// Comparison of two binary64 values for equality.
pub fn equal(a: u64, b: u64) -> (r: bool)
    ensures
        r == numerically_equal(a, b),
{
    let magnitude_a: u64 = a & MAGNITUDE_BITS;
    let magnitude_b: u64 = b & MAGNITUDE_BITS;
    proof {
        lemma_magnitude_bits(a);
        lemma_magnitude_bits(b);
        lemma_numerically_equal(a, b);
    }
    if magnitude_a > INFINITY || magnitude_b > INFINITY {
        false
    } else {
        a == b || (magnitude_a == 0 && magnitude_b == 0)
    }
}

/// What is left of a pattern without its sign tells its class.
proof fn lemma_magnitude_bits(bits: u64)
    ensures
        is_nan(bits) <==> bits & MAGNITUDE_BITS > INFINITY,
        is_zero(bits) <==> bits & MAGNITUDE_BITS == 0,
{
    let magnitude: u64 = bits & MAGNITUDE_BITS;
    assert(magnitude == bits % 0x8000_0000_0000_0000) by (bit_vector)
        requires
            magnitude == bits & 0x7fff_ffff_ffff_ffffu64,
    ;
}

/// Two patterns are equal as numbers exactly when neither is a NaN and they
/// are the same pattern or are both zeros.
pub proof fn lemma_numerically_equal(a: u64, b: u64)
    ensures
        numerically_equal(a, b) <==> !is_nan(a) && !is_nan(b) && (a == b || (is_zero(a)
            && is_zero(b))),
{
    if is_finite(a) && is_finite(b) {
        lemma_units_equal(a, b);
    }
}

/// Two finite patterns denote the same number exactly when they are the same
/// pattern or are both zeros.
pub proof fn lemma_units_equal(a: u64, b: u64)
    requires
        is_finite(a),
        is_finite(b),
    ensures
        units(a) == units(b) <==> a == b || (is_zero(a) && is_zero(b)),
{
    let (m1, k1) = (significand(a), scale(a));
    let (m2, k2) = (significand(b), scale(b));
    lemma_pow2_pos(k1);
    lemma_pow2_pos(k2);
    assert(m1 * pow2(k1) == 0 <==> m1 == 0) by (nonlinear_arith)
        requires
            pow2(k1) > 0,
    ;
    assert(m2 * pow2(k2) == 0 <==> m2 == 0) by (nonlinear_arith)
        requires
            pow2(k2) > 0,
    ;
    if units(a) == units(b) && m1 != 0 {
        lemma_scaled_significand_unique(m1, k1, m2, k2);
    }
}

/// A significand below two to the 53rd, scaled by a power of two, is written in
/// one way only once a positive scale demands the leading one.
proof fn lemma_scaled_significand_unique(m1: nat, k1: nat, m2: nat, k2: nat)
    requires
        0 < m1 < 0x20_0000_0000_0000,
        0 < m2 < 0x20_0000_0000_0000,
        k1 > 0 ==> m1 >= 0x10_0000_0000_0000,
        k2 > 0 ==> m2 >= 0x10_0000_0000_0000,
        m1 * pow2(k1) == m2 * pow2(k2),
    ensures
        m1 == m2,
        k1 == k2,
{
    lemma_pow2_pos(k1);
    lemma_pow2_pos(k2);
    if k1 < k2 {
        lemma_shifted_significand_too_large(m2, (k2 - k1) as nat, k1, m1);
    } else if k2 < k1 {
        lemma_shifted_significand_too_large(m1, (k1 - k2) as nat, k2, m2);
    } else {
        let p: int = pow2(k1) as int;
        assert(m1 == m2) by (nonlinear_arith)
            requires
                m1 * p == m2 * p,
                p > 0,
        ;
    }
}

/// A significand with its leading one, shifted up by `d > 0` places, cannot
/// equal a significand `m` below two to the 53rd at the same scale `k`.
proof fn lemma_shifted_significand_too_large(n: nat, d: nat, k: nat, m: nat)
    requires
        d > 0,
        n >= 0x10_0000_0000_0000,
        m < 0x20_0000_0000_0000,
    ensures
        n * pow2(d + k) != m * pow2(k),
{
    lemma_pow2_pos(k);
    lemma_pow2_adds(d, k);
    lemma_pow2_strictly_increases(0, d);
    lemma2_to64();
    let pd: int = pow2(d) as int;
    let pk: int = pow2(k) as int;
    assert(n * (pd * pk) > m * pk) by (nonlinear_arith)
        requires
            pd >= 2,
            pk > 0,
            n >= 0x10_0000_0000_0000,
            m < 0x20_0000_0000_0000,
    ;
}

} // verus!
