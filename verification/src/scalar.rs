//! Scalar quantities (positions, momenta, masses, energies, times) are IEEE-754
//! binary64 bit patterns carried as `u64`. The verified library never performs
//! rounded floating-point arithmetic itself; it decides everything that depends
//! only on the *order* or the *exact value* of such scalars: sign, negation,
//! exact halving, and comparisons through the standard total-order key. The
//! meaning of a bit pattern is pinned by `scaled`, which maps every finite
//! pattern to its real value times 2^1074 — an exact integer.

use vstd::prelude::*;
use vstd::arithmetic::power2::*;
use vstd::arithmetic::mul::*;

verus! {

/// Mask of the sign bit of a binary64 pattern.
pub const SIGN_MASK: u64 = 0x8000_0000_0000_0000;
/// Mask of the 52 fraction bits.
pub const FRAC_MASK: u64 = 0x000F_FFFF_FFFF_FFFF;
/// Mask of everything but the sign bit: the magnitude of the pattern.
pub const MAG_MASK: u64 = 0x7FFF_FFFF_FFFF_FFFF;

/// The sign bit: 0 for non-negative values, 1 for negative ones.
pub open spec fn sign_of(b: u64) -> u64 {
    b >> 63
}

/// The biased exponent field, 0 through 0x7FF.
pub open spec fn exp_of(b: u64) -> u64 {
    (b >> 52) & 0x7FF
}

/// The 52-bit fraction field.
pub open spec fn frac_of(b: u64) -> u64 {
    b & FRAC_MASK
}

/// A pattern is finite unless its exponent field is all ones (infinity or NaN).
pub open spec fn is_finite(b: u64) -> bool {
    exp_of(b) != 0x7FF
}

/// The magnitude of a finite pattern, scaled by 2^1074: an exact natural number.
/// Subnormals (exponent field 0) are worth `frac`; normal values are worth
/// `(2^52 + frac) * 2^(e-1)` in these units.
pub open spec fn mag_scaled(b: u64) -> int {
    if exp_of(b) == 0 {
        frac_of(b) as int
    } else {
        (pow2(52) + frac_of(b)) * pow2((exp_of(b) - 1) as nat)
    }
}

/// The exact value of a finite pattern, times 2^1074. Both zero patterns map
/// to 0; otherwise the sign bit gives the sign.
pub open spec fn scaled(b: u64) -> int {
    if sign_of(b) == 0 {
        mag_scaled(b)
    } else {
        -mag_scaled(b)
    }
}

/// The standard total-order key of a binary64 pattern: flip the sign bit of
/// non-negative patterns, flip every bit of negative ones. Unsigned comparison
/// of keys then agrees with the value order of finite patterns (see
/// `lemma_key_orders_values`), except that it places -0.0 just below +0.0.
pub open spec fn key_of(b: u64) -> u64 {
    if b & SIGN_MASK == 0 {
        b | SIGN_MASK
    } else {
        !b
    }
}

/// Negation of a binary64 value: flip the sign bit.
pub open spec fn neg_of(b: u64) -> u64 {
    b ^ SIGN_MASK
}

/// Computes the total-order key of a pattern.
pub fn order_key(b: u64) -> (k: u64)
    ensures
        k == key_of(b),
{
    if b & SIGN_MASK == 0 {
        b | SIGN_MASK
    } else {
        !b
    }
}

/// Negates a scalar exactly.
pub fn neg_bits(b: u64) -> (r: u64)
    ensures
        r == neg_of(b),
        is_finite(b) ==> is_finite(r) && scaled(r) == -scaled(b),
{
    proof {
        lemma_neg_scaled(b);
    }
    b ^ SIGN_MASK
}

/// Flipping the sign bit keeps the exponent and fraction fields and flips the
/// sign, so it negates the scaled value of every finite pattern.
pub proof fn lemma_neg_scaled(b: u64)
    ensures
        exp_of(neg_of(b)) == exp_of(b),
        frac_of(neg_of(b)) == frac_of(b),
        is_finite(b) ==> is_finite(neg_of(b)) && scaled(neg_of(b)) == -scaled(b),
{
    assert(((b ^ 0x8000_0000_0000_0000u64) >> 52) & 0x7FF == (b >> 52) & 0x7FF) by (bit_vector);
    assert((b ^ 0x8000_0000_0000_0000u64) & 0x000F_FFFF_FFFF_FFFFu64 == b & 0x000F_FFFF_FFFF_FFFFu64)
        by (bit_vector);
    assert((b ^ 0x8000_0000_0000_0000u64) >> 63 == 1 - (b >> 63)) by (bit_vector);
    assert(b >> 63 == 0 || b >> 63 == 1) by (bit_vector);
}

/// Halves a finite scalar exactly as IEEE-754 division by two does under
/// round-to-nearest-even: the scaled magnitude of the result is half the
/// scaled magnitude of the input when that is even, and otherwise the even
/// neighbour of the exact (non-representable) half. Halving is exact for
/// every input whose exponent field is at least 2; only values in the two
/// lowest exponent ranges can round.
pub fn half_bits(b: u64) -> (r: u64)
    requires
        is_finite(b),
    ensures
        is_finite(r),
        sign_of(r) == sign_of(b),
        mag_scaled(b) % 2 == 0 ==> 2 * mag_scaled(r) == mag_scaled(b),
        mag_scaled(b) % 2 == 1 ==> mag_scaled(r) % 2 == 0 && (2 * mag_scaled(r) == mag_scaled(b)
            - 1 || 2 * mag_scaled(r) == mag_scaled(b) + 1),
{
    let sign = b & SIGN_MASK;
    let mag = b & MAG_MASK;
    if mag >= 0x0020_0000_0000_0000 {
        let res = sign | (mag - 0x0010_0000_0000_0000);
        proof {
            lemma_half_bits_normal(b, sign, mag, res);
        }
        res
    } else {
        let half = mag >> 1;
        proof {
            assert((mag & 1) & ((mag >> 1) & 1) <= 1 && mag >> 1 < 0x0010_0000_0000_0000)
                by (bit_vector)
                requires
                    mag < 0x0020_0000_0000_0000,
            ;
        }
        let rounded = half + ((mag & 1) & (half & 1));
        let res = sign | rounded;
        proof {
            lemma_half_bits_low(b, sign, mag, rounded, res);
        }
        res
    }
}

/// Dropping one from an exponent field of 2 or more halves the value exactly.
proof fn lemma_half_bits_normal(b: u64, sign: u64, mag: u64, res: u64)
    requires
        is_finite(b),
        sign == b & SIGN_MASK,
        mag == b & MAG_MASK,
        mag >= 0x0020_0000_0000_0000,
        res == sign | ((mag - 0x0010_0000_0000_0000) as u64),
    ensures
        is_finite(res),
        sign_of(res) == sign_of(b),
        mag_scaled(b) % 2 == 0,
        2 * mag_scaled(res) == mag_scaled(b),
{
    assert(exp_of(b) >= 2 && exp_of(res) == exp_of(b) - 1 && frac_of(res) == frac_of(b)
        && sign_of(res) == sign_of(b) && exp_of(res) != 0x7FF) by (bit_vector)
        requires
            (b >> 52) & 0x7FF != 0x7FF,
            sign == b & 0x8000_0000_0000_0000u64,
            mag == b & 0x7FFF_FFFF_FFFF_FFFFu64,
            mag >= 0x0020_0000_0000_0000,
            res == sign | ((mag - 0x0010_0000_0000_0000) as u64),
    ;
    let e = exp_of(b);
    let f = frac_of(b) as int;
    let p52 = pow2(52) as int;
    lemma_pow2_adds(1, (e - 2) as nat);
    lemma2_to64();
    assert(pow2((e - 1) as nat) == 2 * pow2((e - 2) as nat));
    assert(mag_scaled(b) == (p52 + f) * (2 * pow2((e - 2) as nat)));
    assert((p52 + f) * (2 * pow2((e - 2) as nat)) == 2 * ((p52 + f) * pow2((e - 2) as nat)))
        by (nonlinear_arith);
    assert(mag_scaled(res) == (p52 + f) * pow2((e - 2) as nat));
}

/// In the two lowest exponent ranges the scaled magnitude is the magnitude
/// bits themselves, and halving rounds the shifted-out bit to even.
proof fn lemma_half_bits_low(b: u64, sign: u64, mag: u64, rounded: u64, res: u64)
    requires
        is_finite(b),
        sign == b & SIGN_MASK,
        mag == b & MAG_MASK,
        mag < 0x0020_0000_0000_0000,
        rounded == (mag >> 1) + ((mag & 1) & ((mag >> 1) & 1)),
        res == sign | rounded,
    ensures
        is_finite(res),
        sign_of(res) == sign_of(b),
        mag_scaled(b) % 2 == 0 ==> 2 * mag_scaled(res) == mag_scaled(b),
        mag_scaled(b) % 2 == 1 ==> mag_scaled(res) % 2 == 0 && (2 * mag_scaled(res)
            == mag_scaled(b) - 1 || 2 * mag_scaled(res) == mag_scaled(b) + 1),
{
    lemma_low_mag_is_scaled(b, mag);
    assert(rounded < 0x0020_0000_0000_0000 && res & 0x7FFF_FFFF_FFFF_FFFFu64 == rounded
        && sign_of(res) == sign_of(b) && (res >> 52) & 0x7FF != 0x7FF) by (bit_vector)
        requires
            sign == b & 0x8000_0000_0000_0000u64,
            mag == b & 0x7FFF_FFFF_FFFF_FFFFu64,
            mag < 0x0020_0000_0000_0000,
            rounded == (mag >> 1) + ((mag & 1) & ((mag >> 1) & 1)),
            res == sign | rounded,
    ;
    lemma_low_mag_is_scaled(res, rounded);
    assert(mag % 2 == 0 ==> 2 * rounded == mag) by (bit_vector)
        requires
            mag < 0x0020_0000_0000_0000,
            rounded == (mag >> 1) + ((mag & 1) & ((mag >> 1) & 1)),
    ;
    assert(mag % 2 == 1 ==> rounded % 2 == 0 && (2 * rounded == mag - 1 || 2 * rounded == mag
        + 1)) by (bit_vector)
        requires
            mag < 0x0020_0000_0000_0000,
            rounded == (mag >> 1) + ((mag & 1) & ((mag >> 1) & 1)),
    ;
}

/// Below the second exponent range, the scaled magnitude of a pattern equals
/// its magnitude bits: subnormals count their fraction directly, and the
/// first normal range has unit scale.
proof fn lemma_low_mag_is_scaled(b: u64, mag: u64)
    requires
        mag == b & MAG_MASK,
        mag < 0x0020_0000_0000_0000,
    ensures
        mag_scaled(b) == mag,
{
    assert(((b >> 52) & 0x7FF == 0 && (b & 0x000F_FFFF_FFFF_FFFFu64) == mag) || ((b >> 52) & 0x7FF
        == 1 && mag == 0x0010_0000_0000_0000 + (b & 0x000F_FFFF_FFFF_FFFFu64))) by (bit_vector)
        requires
            mag == b & 0x7FFF_FFFF_FFFF_FFFFu64,
            mag < 0x0020_0000_0000_0000,
    ;
    lemma2_to64();
    lemma2_to64_rest();
    if exp_of(b) == 1 {
        assert(mag_scaled(b) == (pow2(52) + frac_of(b)) * pow2(0));
    }
}

/// The fraction field is 52 bits wide and the exponent field 11 bits wide.
proof fn lemma_field_bounds(b: u64)
    ensures
        frac_of(b) < 0x10_0000_0000_0000,
        exp_of(b) <= 0x7FF,
{
    assert(b & 0x000F_FFFF_FFFF_FFFFu64 < 0x10_0000_0000_0000) by (bit_vector);
    assert((b >> 52) & 0x7FF <= 0x7FF) by (bit_vector);
}

/// The scaled magnitude of any pattern is non-negative, and positive when the
/// exponent field is non-zero.
pub proof fn lemma_mag_scaled_nonneg(b: u64)
    ensures
        mag_scaled(b) >= 0,
        exp_of(b) != 0 ==> mag_scaled(b) > 0,
{
    if exp_of(b) != 0 {
        lemma_pow2_pos((exp_of(b) - 1) as nat);
        lemma_pow2_pos(52);
        lemma_mul_strictly_positive(
            pow2(52) + frac_of(b),
            pow2((exp_of(b) - 1) as nat) as int,
        );
    }
}

/// On sign-free finite patterns, the unsigned bit order is exactly the order
/// of scaled magnitudes: the exponent and fraction fields compare
/// lexicographically, and the value grows with each field.
proof fn lemma_mag_bits_monotone(a: u64, b: u64)
    requires
        a & SIGN_MASK == 0,
        b & SIGN_MASK == 0,
        is_finite(a),
        is_finite(b),
        a < b,
    ensures
        mag_scaled(a) < mag_scaled(b),
{
    lemma_field_bounds(a);
    lemma_field_bounds(b);
    assert(exp_of(a) < exp_of(b) || (exp_of(a) == exp_of(b) && frac_of(a) < frac_of(b)))
        by (bit_vector)
        requires
            a & 0x8000_0000_0000_0000u64 == 0,
            b & 0x8000_0000_0000_0000u64 == 0,
            a < b,
    ;
    lemma2_to64();
    lemma2_to64_rest();
    let ea = exp_of(a);
    let eb = exp_of(b);
    let fa = frac_of(a) as int;
    let fb = frac_of(b) as int;
    let p52 = pow2(52) as int;
    if ea == eb {
        if ea == 0 {
        } else {
            lemma_pow2_pos((ea - 1) as nat);
            lemma_mul_strict_inequality(p52 + fa, p52 + fb, pow2((ea - 1) as nat) as int);
        }
    } else if ea < eb {
        // mag_scaled(b) >= pow2(eb + 51)
        lemma_pow2_pos((eb - 1) as nat);
        lemma_mul_inequality(p52, p52 + fb, pow2((eb - 1) as nat) as int);
        lemma_pow2_adds(52, (eb - 1) as nat);
        assert(mag_scaled(b) >= pow2((eb + 51) as nat));
        if ea == 0 {
            // mag_scaled(a) < pow2(52) <= pow2(eb + 51)
            if 52 < eb + 51 {
                lemma_pow2_strictly_increases(52, (eb + 51) as nat);
            }
        } else {
            // mag_scaled(a) < pow2(ea + 52) <= pow2(eb + 51)
            lemma_pow2_pos((ea - 1) as nat);
            lemma_mul_strict_inequality(p52 + fa, 2 * p52, pow2((ea - 1) as nat) as int);
            lemma_pow2_unfold(53);
            assert(2 * p52 == pow2(53));
            lemma_pow2_adds(53, (ea - 1) as nat);
            assert(mag_scaled(a) < pow2((ea + 52) as nat));
            if ea + 52 < eb + 51 {
                lemma_pow2_strictly_increases((ea + 52) as nat, (eb + 51) as nat);
            }
        }
    }
}

/// Only the two zero patterns have scaled value zero.
pub proof fn lemma_zero_scaled(b: u64)
    requires
        is_finite(b),
        scaled(b) == 0,
    ensures
        b == 0 || b == SIGN_MASK,
{
    lemma_mag_scaled_nonneg(b);
    assert((b >> 52) & 0x7FF == 0 && b & 0x000F_FFFF_FFFF_FFFFu64 == 0 ==> b == 0 || b
        == 0x8000_0000_0000_0000u64) by (bit_vector);
}

/// Every non-zero finite value has exactly one encoding: two finite patterns
/// with the same non-zero scaled value are the same pattern.
pub proof fn lemma_scaled_injective(a: u64, b: u64)
    requires
        is_finite(a),
        is_finite(b),
        scaled(a) == scaled(b),
        scaled(a) != 0,
    ensures
        a == b,
{
    lemma_mag_scaled_nonneg(a);
    lemma_mag_scaled_nonneg(b);
    assert(a >> 63 == 0 || a >> 63 == 1) by (bit_vector);
    assert(b >> 63 == 0 || b >> 63 == 1) by (bit_vector);
    let am = a & MAG_MASK;
    let bm = b & MAG_MASK;
    assert(exp_of(am) == exp_of(a) && frac_of(am) == frac_of(a) && am & 0x8000_0000_0000_0000u64
        == 0) by (bit_vector)
        requires
            am == a & 0x7FFF_FFFF_FFFF_FFFFu64,
    ;
    assert(exp_of(bm) == exp_of(b) && frac_of(bm) == frac_of(b) && bm & 0x8000_0000_0000_0000u64
        == 0) by (bit_vector)
        requires
            bm == b & 0x7FFF_FFFF_FFFF_FFFFu64,
    ;
    assert(mag_scaled(am) == mag_scaled(a));
    assert(mag_scaled(bm) == mag_scaled(b));
    if am < bm {
        lemma_mag_bits_monotone(am, bm);
    } else if bm < am {
        lemma_mag_bits_monotone(bm, am);
    }
    assert(am == bm);
    assert((a >> 63 == b >> 63 && a & 0x7FFF_FFFF_FFFF_FFFFu64 == b & 0x7FFF_FFFF_FFFF_FFFFu64)
        ==> a == b) by (bit_vector);
}

/// For finite patterns the total-order key respects the exact value order:
/// strictly larger values have strictly larger keys, a smaller key never
/// belongs to a larger value, and equal keys mean equal patterns. (Keys
/// additionally separate -0.0 from +0.0, which `scaled` maps to the same
/// value 0.)
pub proof fn lemma_key_orders_values(a: u64, b: u64)
    requires
        is_finite(a),
        is_finite(b),
    ensures
        scaled(a) < scaled(b) ==> key_of(a) < key_of(b),
        key_of(a) < key_of(b) ==> scaled(a) <= scaled(b),
        key_of(a) == key_of(b) ==> a == b,
{
    assert(key_of(a) == key_of(b) ==> a == b) by (bit_vector);
    lemma_mag_scaled_nonneg(a);
    lemma_mag_scaled_nonneg(b);
    let am = a & MAG_MASK;
    let bm = b & MAG_MASK;
    assert(exp_of(am) == exp_of(a) && frac_of(am) == frac_of(a) && am & 0x8000_0000_0000_0000u64
        == 0) by (bit_vector)
        requires
            am == a & 0x7FFF_FFFF_FFFF_FFFFu64,
    ;
    assert(exp_of(bm) == exp_of(b) && frac_of(bm) == frac_of(b) && bm & 0x8000_0000_0000_0000u64
        == 0) by (bit_vector)
        requires
            bm == b & 0x7FFF_FFFF_FFFF_FFFFu64,
    ;
    assert(mag_scaled(am) == mag_scaled(a));
    assert(mag_scaled(bm) == mag_scaled(b));
    assert(a >> 63 == 0 || a >> 63 == 1) by (bit_vector);
    assert(b >> 63 == 0 || b >> 63 == 1) by (bit_vector);
    if sign_of(a) == 0 && sign_of(b) == 0 {
        assert(a >> 63 == 0 ==> a & 0x8000_0000_0000_0000u64 == 0 && a & 0x7FFF_FFFF_FFFF_FFFFu64
            == a) by (bit_vector);
        assert(b >> 63 == 0 ==> b & 0x8000_0000_0000_0000u64 == 0 && b & 0x7FFF_FFFF_FFFF_FFFFu64
            == b) by (bit_vector);
        if a < b {
            lemma_mag_bits_monotone(a, b);
        } else if b < a {
            lemma_mag_bits_monotone(b, a);
        }
        assert(a < b ==> key_of(a) < key_of(b)) by (bit_vector)
            requires
                a & 0x8000_0000_0000_0000u64 == 0,
                b & 0x8000_0000_0000_0000u64 == 0,
        ;
        assert(key_of(a) < key_of(b) ==> a < b) by (bit_vector)
            requires
                a & 0x8000_0000_0000_0000u64 == 0,
                b & 0x8000_0000_0000_0000u64 == 0,
        ;
    } else if sign_of(a) == 1 && sign_of(b) == 1 {
        assert(a >> 63 == 1 ==> a & 0x8000_0000_0000_0000u64 != 0) by (bit_vector);
        assert(b >> 63 == 1 ==> b & 0x8000_0000_0000_0000u64 != 0) by (bit_vector);
        assert(is_finite(am) && is_finite(bm));
        if bm < am {
            lemma_mag_bits_monotone(bm, am);
        } else if am < bm {
            lemma_mag_bits_monotone(am, bm);
        }
        assert(bm < am ==> key_of(a) < key_of(b)) by (bit_vector)
            requires
                a & 0x8000_0000_0000_0000u64 != 0,
                b & 0x8000_0000_0000_0000u64 != 0,
                am == a & 0x7FFF_FFFF_FFFF_FFFFu64,
                bm == b & 0x7FFF_FFFF_FFFF_FFFFu64,
        ;
        assert(key_of(a) < key_of(b) ==> bm < am) by (bit_vector)
            requires
                a & 0x8000_0000_0000_0000u64 != 0,
                b & 0x8000_0000_0000_0000u64 != 0,
                am == a & 0x7FFF_FFFF_FFFF_FFFFu64,
                bm == b & 0x7FFF_FFFF_FFFF_FFFFu64,
        ;
    } else if sign_of(a) == 1 && sign_of(b) == 0 {
        // a is negative, b non-negative: scaled(a) <= 0 <= scaled(b) and the
        // key of a negative pattern is always below the key of a non-negative one.
        assert(a >> 63 == 1 && b >> 63 == 0 ==> key_of(a) < key_of(b)) by (bit_vector);
    } else {
        assert(sign_of(a) == 0 && sign_of(b) == 1);
        assert(a >> 63 == 0 && b >> 63 == 1 ==> key_of(b) < key_of(a)) by (bit_vector);
    }
}

} // verus!
