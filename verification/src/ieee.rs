//! IEEE 754 binary32 and binary64 values, held as their bit patterns.
//!
//! A pattern is split into a sign bit, a biased exponent field and a
//! fraction field. Everything here is integer arithmetic on those fields.

use vstd::arithmetic::power2::*;
use vstd::prelude::*;

verus! {

/// Sign bit of a single-precision pattern: 0 or 1.
pub open spec fn single_sign(bits: u32) -> int {
    bits as int / 0x8000_0000
}

/// Biased exponent field of a single-precision pattern: 0 to 255.
pub open spec fn single_exponent(bits: u32) -> int {
    (bits as int / 0x80_0000) % 0x100
}

/// Fraction field of a single-precision pattern: 23 bits.
pub open spec fn single_fraction(bits: u32) -> int {
    bits as int % 0x80_0000
}

/// The pattern encodes a NaN.
pub open spec fn single_is_nan(bits: u32) -> bool {
    single_exponent(bits) == 0xff && single_fraction(bits) != 0
}

/// The pattern encodes positive or negative infinity.
pub open spec fn single_is_infinite(bits: u32) -> bool {
    single_exponent(bits) == 0xff && single_fraction(bits) == 0
}

/// The pattern encodes a zero, a subnormal or a normal number.
pub open spec fn single_is_finite(bits: u32) -> bool {
    single_exponent(bits) != 0xff
}

/// Sign bit of a double-precision pattern: 0 or 1.
pub open spec fn double_sign(bits: u64) -> int {
    bits as int / 0x8000_0000_0000_0000
}

/// Biased exponent field of a double-precision pattern: 0 to 2047.
pub open spec fn double_exponent(bits: u64) -> int {
    (bits as int / 0x10_0000_0000_0000) % 0x800
}

/// Fraction field of a double-precision pattern: 52 bits.
pub open spec fn double_fraction(bits: u64) -> int {
    bits as int % 0x10_0000_0000_0000
}

/// The pattern encodes a NaN.
pub open spec fn double_is_nan(bits: u64) -> bool {
    double_exponent(bits) == 0x7ff && double_fraction(bits) != 0
}

/// The pattern encodes positive or negative infinity.
pub open spec fn double_is_infinite(bits: u64) -> bool {
    double_exponent(bits) == 0x7ff && double_fraction(bits) == 0
}

/// The pattern encodes a zero, a subnormal or a normal number.
pub open spec fn double_is_finite(bits: u64) -> bool {
    double_exponent(bits) != 0x7ff
}

/// The double-precision pattern with the given fields.
pub open spec fn double_from_fields(sign: int, exponent: int, fraction: int) -> int {
    sign * 0x8000_0000_0000_0000 + exponent * 0x10_0000_0000_0000 + fraction
}

/// An upper bound on the doublings that take a significand to 2^23.
pub open spec fn doublings_left(significand: int) -> int {
    if significand < 0x80_0000 {
        0x80_0000 - significand
    } else {
        0
    }
}

/// A significand below 2^23 doubled until it reaches 2^23, the exponent
/// lowered by one for each doubling. The number `significand * 2^exponent`
/// stays the same.
pub open spec fn normalized(significand: int, exponent: int) -> (int, int)
    decreases doublings_left(significand),
{
    if 0 < significand < 0x80_0000 {
        normalized(2 * significand, exponent - 1)
    } else {
        (significand, exponent)
    }
}

/// The double-precision pattern of the number that a finite single-precision
/// pattern encodes. Every such number is a normal double or a zero: the
/// exponent is rebiased from 127 to 1023, a subnormal is normalized first,
/// and the fraction gains 29 low zero bits.
pub open spec fn widened(bits: u32) -> int {
    let sign = single_sign(bits);
    let exponent = single_exponent(bits);
    let fraction = single_fraction(bits);
    if exponent == 0 && fraction == 0 {
        double_from_fields(sign, 0, 0)
    } else {
        let (significand, rebiased) = if exponent == 0 {
            normalized(fraction, 897)
        } else {
            (0x80_0000 + fraction, exponent + 896)
        };
        double_from_fields(sign, rebiased, (significand - 0x80_0000) * 0x2000_0000)
    }
}

/// Whether a single-precision pattern is neither a NaN nor an infinity.
pub fn is_finite_single(bits: u32) -> (r: bool)
    ensures
        r == single_is_finite(bits),
        r == (!single_is_nan(bits) && !single_is_infinite(bits)),
{
    (bits / 0x80_0000) % 0x100 != 0xff
}

/// Whether a double-precision pattern is neither a NaN nor an infinity.
pub fn is_finite_double(bits: u64) -> (r: bool)
    ensures
        r == double_is_finite(bits),
        r == (!double_is_nan(bits) && !double_is_infinite(bits)),
{
    (bits / 0x10_0000_0000_0000) % 0x800 != 0x7ff
}

/// Widens a single-precision pattern to the double-precision pattern of the
/// same number. A NaN or an infinity gives `None`.
pub fn widen_single(bits: u32) -> (r: Option<u64>)
    ensures
        single_is_finite(bits) ==> r == Some(widened(bits) as u64),
        single_is_finite(bits) ==> 0 <= widened(bits) <= u64::MAX,
        !single_is_finite(bits) ==> r is None,
{
    let sign: u64 = (bits / 0x8000_0000) as u64;
    let exponent: u64 = ((bits / 0x80_0000) % 0x100) as u64;
    let fraction: u64 = (bits % 0x80_0000) as u64;
    if exponent == 0xff {
        return None;
    }
    if exponent == 0 && fraction == 0 {
        return Some(sign * 0x8000_0000_0000_0000);
    }
    let mut significand: u64 = 0x80_0000 + fraction;
    let mut rebiased: u64 = exponent + 896;
    if exponent == 0 {
        significand = fraction;
        rebiased = 897;
        let ghost mut doublings: nat = 0;
        proof {
            lemma2_to64();
        }
        while significand < 0x80_0000
            invariant
                0 < significand < 0x100_0000,
                doublings <= 23,
                rebiased == 897 - doublings,
                significand >= pow2(doublings),
                normalized(significand as int, rebiased as int) == normalized(fraction as int, 897),
            decreases doublings_left(significand as int),
        {
            proof {
                lemma2_to64();
                if doublings == 23 {
                    assert(false);
                }
                lemma_pow2_unfold(doublings + 1);
                doublings = doublings + 1;
            }
            significand = significand * 2;
            rebiased = rebiased - 1;
        }
    }
    Some(
        sign * 0x8000_0000_0000_0000 + rebiased * 0x10_0000_0000_0000 + (significand - 0x80_0000)
            * 0x2000_0000,
    )
}

/// The number that a finite single-precision pattern encodes, without its
/// sign and multiplied by 2^1074, which makes it an integer.
pub open spec fn single_magnitude(bits: u32) -> int {
    if single_exponent(bits) == 0 {
        single_fraction(bits) * pow2(925)
    } else {
        (0x80_0000 + single_fraction(bits)) * pow2((single_exponent(bits) + 924) as nat)
    }
}

/// The number that a finite double-precision pattern encodes, without its
/// sign and multiplied by 2^1074, which makes it an integer.
pub open spec fn double_magnitude(bits: u64) -> int {
    if double_exponent(bits) == 0 {
        double_fraction(bits)
    } else {
        (0x10_0000_0000_0000 + double_fraction(bits)) * pow2((double_exponent(bits) - 1) as nat)
    }
}

/// Normalizing ends with a significand of exactly 24 bits after at most 23
/// doublings, and each doubling is paid for by the exponent.
pub proof fn lemma_normalized(significand: int, exponent: int, doublings: nat)
    requires
        0 < significand < 0x100_0000,
        pow2(doublings) <= significand,
        doublings <= 23,
    ensures
        ({
            let (m, e) = normalized(significand, exponent);
            &&& 0x80_0000 <= m < 0x100_0000
            &&& exponent - (23 - doublings) <= e <= exponent
            &&& m == significand * pow2((exponent - e) as nat)
        }),
    decreases doublings_left(significand),
{
    lemma2_to64();
    if significand < 0x80_0000 {
        if doublings == 23 {
            assert(false);
        }
        lemma_pow2_unfold(doublings + 1);
        lemma_normalized(2 * significand, exponent - 1, doublings + 1);
        let (m, e) = normalized(significand, exponent);
        let shift = (exponent - 1 - e) as nat;
        lemma_pow2_unfold(shift + 1);
        assert(m == significand * pow2(shift + 1)) by (nonlinear_arith)
            requires
                m == (2 * significand) * pow2(shift),
                pow2(shift + 1) == 2 * pow2(shift),
        ;
    } else {
        assert(significand * pow2(0) == significand) by (nonlinear_arith)
            requires
                pow2(0) == 1,
        ;
    }
}

/// A double-precision pattern put together from fields within their widths
/// has these fields.
pub proof fn lemma_double_fields(sign: int, exponent: int, fraction: int)
    requires
        0 <= sign <= 1,
        0 <= exponent < 0x800,
        0 <= fraction < 0x10_0000_0000_0000,
    ensures
        0 <= double_from_fields(sign, exponent, fraction) <= u64::MAX,
        double_sign(double_from_fields(sign, exponent, fraction) as u64) == sign,
        double_exponent(double_from_fields(sign, exponent, fraction) as u64) == exponent,
        double_fraction(double_from_fields(sign, exponent, fraction) as u64) == fraction,
{
}

/// Widening keeps the number: the widened pattern is that of a finite
/// double with the sign and the magnitude of the single.
pub proof fn lemma_widening_keeps_value(bits: u32)
    requires
        single_is_finite(bits),
    ensures
        0 <= widened(bits) <= u64::MAX,
        double_is_finite(widened(bits) as u64),
        double_sign(widened(bits) as u64) == single_sign(bits),
        double_magnitude(widened(bits) as u64) == single_magnitude(bits),
{
    let sign = single_sign(bits);
    let exponent = single_exponent(bits);
    let fraction = single_fraction(bits);
    lemma2_to64();
    if exponent == 0 && fraction == 0 {
        lemma_double_fields(sign, 0, 0);
        assert(0 * pow2(925) == 0) by (nonlinear_arith);
    } else if exponent == 0 {
        lemma_normalized(fraction, 897, 0);
        let (m, e) = normalized(fraction, 897);
        let wide = (m - 0x80_0000) * 0x2000_0000;
        lemma_double_fields(sign, e, wide);
        let shift = (897 - e) as nat;
        lemma_pow2_adds(shift, 29);
        lemma_pow2_adds(shift + 29, (e - 1) as nat);
        assert((0x10_0000_0000_0000 + wide) * pow2((e - 1) as nat) == fraction * pow2(925))
            by (nonlinear_arith)
            requires
                wide == (m - 0x80_0000) * 0x2000_0000,
                m == fraction * pow2(shift),
                pow2(29) == 0x2000_0000,
                pow2(shift + 29) == pow2(shift) * pow2(29),
                pow2(925) == pow2(shift + 29) * pow2((e - 1) as nat),
        ;
    } else {
        let wide = fraction * 0x2000_0000;
        lemma_double_fields(sign, exponent + 896, wide);
        lemma_pow2_adds(29, (exponent + 895) as nat);
        assert((0x10_0000_0000_0000 + wide) * pow2((exponent + 895) as nat) == (0x80_0000
            + fraction) * pow2((exponent + 924) as nat)) by (nonlinear_arith)
            requires
                wide == fraction * 0x2000_0000,
                pow2(29) == 0x2000_0000,
                pow2((exponent + 924) as nat) == pow2(29) * pow2((exponent + 895) as nat),
        ;
    }
}

} // verus!
