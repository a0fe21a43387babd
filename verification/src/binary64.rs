//! IEEE 754 binary64 numbers, read from their bit patterns.
//!
//! A pattern has one sign bit, eleven exponent bits and fifty-two fraction
//! bits. For a finite pattern the magnitude of the number, multiplied by
//! `2^1074`, is the natural number [`magnitude`]; this makes every comparison
//! with zero and one a statement about integers.

use vstd::arithmetic::power2::{lemma2_to64_rest, lemma_pow2_adds, lemma_pow2_pos, lemma_pow2_strictly_increases, pow2};
use vstd::prelude::*;

verus! {

/// The pattern of `+0.0`.
pub const ZERO: u64 = 0;

/// The pattern of `-0.0`.
pub const NEGATIVE_ZERO: u64 = 0x8000_0000_0000_0000;

/// The pattern of `1.0`.
pub const ONE: u64 = 0x3FF0_0000_0000_0000;

/// The pattern of positive infinity.
pub const INFINITY: u64 = 0x7FF0_0000_0000_0000;

/// Whether the sign bit is set.
pub open spec fn negative(bits: u64) -> bool {
    bits >> 63 == 1
}

/// The biased exponent, between 0 and 2047.
pub open spec fn exponent(bits: u64) -> nat {
    ((bits >> 52) & 0x7ff) as nat
}

/// The fraction field, below `2^52`.
pub open spec fn fraction(bits: u64) -> nat {
    (bits & 0x000f_ffff_ffff_ffff) as nat
}

/// Not a number: the exponent is all ones and the fraction is not zero.
pub open spec fn is_nan(bits: u64) -> bool {
    exponent(bits) == 2047 && fraction(bits) != 0
}

/// Neither infinite nor NaN.
pub open spec fn is_finite(bits: u64) -> bool {
    exponent(bits) < 2047
}

/// The significand of a finite pattern: the fraction, with the implicit
/// leading one unless the number is subnormal.
pub open spec fn significand(bits: u64) -> nat {
    if exponent(bits) == 0 {
        fraction(bits)
    } else {
        fraction(bits) + pow2(52)
    }
}

/// For a finite pattern, the magnitude of the number times `2^1074`.
pub open spec fn magnitude(bits: u64) -> nat {
    if exponent(bits) == 0 {
        significand(bits)
    } else {
        significand(bits) * pow2((exponent(bits) - 1) as nat)
    }
}

/// The number is greater than or equal to zero. Both zeros and positive
/// infinity are; no NaN is.
pub open spec fn at_least_zero(bits: u64) -> bool {
    &&& !is_nan(bits)
    &&& !negative(bits) || (is_finite(bits) && magnitude(bits) == 0)
}

/// The number is less than or equal to one. Every negative number and
/// negative infinity are; no NaN is.
pub open spec fn at_most_one(bits: u64) -> bool {
    &&& !is_nan(bits)
    &&& negative(bits) || (is_finite(bits) && magnitude(bits) <= pow2(1074))
}

/// The number lies in the closed interval from zero to one.
pub open spec fn in_unit_interval(bits: u64) -> bool {
    at_least_zero(bits) && at_most_one(bits)
}

proof fn lemma_fields(bits: u64)
    ensures
        exponent(bits) <= 2047,
        fraction(bits) < 0x10_0000_0000_0000,
        negative(bits) <==> bits >= 0x8000_0000_0000_0000,
        !negative(bits) ==> bits == exponent(bits) * 0x10_0000_0000_0000 + fraction(bits),
        negative(bits) ==> bits == 0x8000_0000_0000_0000 + exponent(bits) * 0x10_0000_0000_0000
            + fraction(bits),
{
    let e = (bits >> 52) & 0x7ff;
    let f = bits & 0x000f_ffff_ffff_ffff;
    assert(e <= 2047 && f < 0x10_0000_0000_0000 && ((bits >> 63 == 1) <==> bits
        >= 0x8000_0000_0000_0000) && (bits >> 63 != 1 ==> bits == e * 0x10_0000_0000_0000 + f) && (
    bits >> 63 == 1 ==> bits == 0x8000_0000_0000_0000 + e * 0x10_0000_0000_0000 + f))
        by (bit_vector)
        requires
            e == (bits >> 52) & 0x7ff,
            f == bits & 0x000f_ffff_ffff_ffff,
    ;
}

/// Where a finite pattern's magnitude stands against one, by its fields.
proof fn lemma_magnitude_against_one(bits: u64)
    requires
        is_finite(bits),
    ensures
        magnitude(bits) <= pow2(1074) <==> exponent(bits) < 1023 || (exponent(bits) == 1023
            && fraction(bits) == 0),
        magnitude(bits) == 0 <==> exponent(bits) == 0 && fraction(bits) == 0,
{
    lemma_fields(bits);
    lemma2_to64_rest();
    let e = exponent(bits);
    let f = fraction(bits);
    let m = significand(bits);
    if e == 0 {
        lemma_pow2_strictly_increases(52, 1074);
    } else {
        let k = (e - 1) as nat;
        lemma_pow2_pos(k);
        assert(m * pow2(k) >= pow2(52) * pow2(k)) by (nonlinear_arith)
            requires
                m >= pow2(52),
        ;
        lemma_pow2_adds(52, k);
        assert(m * pow2(k) > 0) by (nonlinear_arith)
            requires
                m > 0,
                pow2(k) > 0,
        ;
        if e < 1023 {
            assert(m * pow2(k) < pow2(53) * pow2(k)) by (nonlinear_arith)
                requires
                    m < pow2(53),
                    pow2(k) > 0,
            ;
            lemma_pow2_adds(53, k);
            if 53 + k < 1074 {
                lemma_pow2_strictly_increases(53 + k, 1074);
            }
        } else if e == 1023 {
            assert(52 + k == 1074);
            if f != 0 {
                assert(m * pow2(k) > pow2(52) * pow2(k)) by (nonlinear_arith)
                    requires
                        m > pow2(52),
                        pow2(k) > 0,
                ;
            }
        } else {
            lemma_pow2_strictly_increases(1074, 52 + k);
        }
    }
}

/// The numbers from zero upwards are the patterns up to positive infinity,
/// and negative zero.
pub proof fn non_negative_patterns(bits: u64)
    ensures
        at_least_zero(bits) <==> bits <= INFINITY || bits == NEGATIVE_ZERO,
{
    lemma_fields(bits);
    if is_finite(bits) {
        lemma_magnitude_against_one(bits);
    }
}

/// The numbers of the unit interval are the patterns up to that of one, and
/// negative zero.
pub proof fn unit_interval_patterns(bits: u64)
    ensures
        in_unit_interval(bits) <==> bits <= ONE || bits == NEGATIVE_ZERO,
{
    lemma_fields(bits);
    if is_finite(bits) {
        lemma_magnitude_against_one(bits);
    }
}

/// Whether the number is greater than or equal to zero.
pub fn is_non_negative(bits: u64) -> (r: bool)
    ensures
        r == at_least_zero(bits),
{
    proof {
        non_negative_patterns(bits);
    }
    bits <= INFINITY || bits == NEGATIVE_ZERO
}

/// Whether the number lies in the closed interval from zero to one.
pub fn is_fraction(bits: u64) -> (r: bool)
    ensures
        r == in_unit_interval(bits),
{
    proof {
        unit_interval_patterns(bits);
    }
    bits <= ONE || bits == NEGATIVE_ZERO
}

} // verus!
