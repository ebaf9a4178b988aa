//! Rounding a number up to whole seconds, from the bits of its double.
//!
//! A double is a sign, an exponent of eleven bits and a fraction of
//! fifty-two. Its value is the significand times a power of two, and the
//! least whole number that is not below it is found in whole numbers alone.

use vstd::prelude::*;

verus! {

/// Two to the power 52: the weight of the hidden bit of a significand.
pub const TWO_52: u64 = 4_503_599_627_370_496;

/// Two to the power 63: the weight of the sign bit.
pub const TWO_63: u64 = 9_223_372_036_854_775_808;

/// The exponent field of the infinities and of what is no number.
pub const EXPONENT_SPECIAL: u64 = 2047;

/// The exponent field of a double whose value is its significand.
pub const EXPONENT_BIAS: u64 = 1075;

/// The sign bit: 1 for a value below zero and for the negative zero.
pub open spec fn spec_sign(bits: u64) -> int {
    (bits / TWO_63) as int
}

/// The exponent field.
pub open spec fn spec_exponent(bits: u64) -> int {
    ((bits / TWO_52) % 2048) as int
}

/// The fraction field.
pub open spec fn spec_fraction(bits: u64) -> int {
    (bits % TWO_52) as int
}

/// The significand: the fraction, with the hidden bit before it unless the
/// exponent field is zero.
pub open spec fn spec_significand(bits: u64) -> int {
    if spec_exponent(bits) == 0 {
        spec_fraction(bits)
    } else {
        spec_fraction(bits) + TWO_52
    }
}

/// The power of two by which the significand is to be multiplied, where it
/// is not negative.
pub open spec fn spec_shift_up(bits: u64) -> int {
    spec_exponent(bits) - EXPONENT_BIAS
}

/// The power of two by which the significand is to be divided, where the
/// value is not a whole multiple of the significand.
pub open spec fn spec_shift_down(bits: u64) -> int {
    if spec_exponent(bits) == 0 {
        1074
    } else {
        EXPONENT_BIAS - spec_exponent(bits)
    }
}

/// Two to the power `k`, for `k` below 64, from the binary digits of `k`.
pub open spec fn spec_two_to(k: int) -> int {
    let a: int = if (k / 32) % 2 == 1 {
        4_294_967_296
    } else {
        1
    };
    let b: int = if (k / 16) % 2 == 1 {
        a * 65_536
    } else {
        a
    };
    let c: int = if (k / 8) % 2 == 1 {
        b * 256
    } else {
        b
    };
    let d: int = if (k / 4) % 2 == 1 {
        c * 16
    } else {
        c
    };
    let e: int = if (k / 2) % 2 == 1 {
        d * 4
    } else {
        d
    };
    if k % 2 == 1 {
        e * 2
    } else {
        e
    }
}

/// The least whole number that is not below the double of these bits, as
/// far as `u64` reaches: zero for a value below zero, `u64::MAX` for a
/// value beyond it and for the positive infinity, zero for what is no
/// number.
pub open spec fn spec_seconds_rounded_up(bits: u64) -> u64 {
    if spec_sign(bits) == 1 {
        0
    } else if spec_exponent(bits) == EXPONENT_SPECIAL {
        if spec_fraction(bits) == 0 {
            u64::MAX
        } else {
            0
        }
    } else if spec_significand(bits) == 0 {
        0
    } else if spec_shift_up(bits) >= 12 {
        u64::MAX
    } else if spec_shift_up(bits) >= 0 {
        (spec_significand(bits) * spec_two_to(spec_shift_up(bits))) as u64
    } else if spec_shift_down(bits) >= 64 {
        1
    } else if spec_significand(bits) % spec_two_to(spec_shift_down(bits)) == 0 {
        (spec_significand(bits) / spec_two_to(spec_shift_down(bits))) as u64
    } else {
        (spec_significand(bits) / spec_two_to(spec_shift_down(bits)) + 1) as u64
    }
}

/// Two to the power `k`.
pub fn two_to(k: u64) -> (r: u64)
    requires
        k < 64,
    ensures
        r == spec_two_to(k as int),
        r >= 1,
        k <= 11 ==> r <= 2048,
{
    let mut r: u64 = 1;
    if (k / 32) % 2 == 1 {
        r = r * 4_294_967_296;
    }
    if (k / 16) % 2 == 1 {
        r = r * 65_536;
    }
    if (k / 8) % 2 == 1 {
        r = r * 256;
    }
    if (k / 4) % 2 == 1 {
        r = r * 16;
    }
    if (k / 2) % 2 == 1 {
        r = r * 4;
    }
    if k % 2 == 1 {
        r = r * 2;
    }
    r
}

/// Rounds the double of these bits up to a whole number.
pub fn seconds_rounded_up(bits: u64) -> (r: u64)
    ensures
        r == spec_seconds_rounded_up(bits),
{
    let sign = bits / TWO_63;
    let exponent = (bits / TWO_52) % 2048;
    let fraction = bits % TWO_52;
    if sign == 1 {
        return 0;
    }
    if exponent == EXPONENT_SPECIAL {
        if fraction == 0 {
            return u64::MAX;
        }
        return 0;
    }
    let significand = if exponent == 0 {
        fraction
    } else {
        fraction + TWO_52
    };
    if significand == 0 {
        return 0;
    }
    if exponent >= EXPONENT_BIAS + 12 {
        return u64::MAX;
    }
    if exponent >= EXPONENT_BIAS {
        let power = two_to(exponent - EXPONENT_BIAS);
        assert(significand * power <= u64::MAX) by (nonlinear_arith)
            requires
                significand < 9_007_199_254_740_992,
                power <= 2048,
        ;
        return significand * power;
    }
    let down = if exponent == 0 {
        1074
    } else {
        EXPONENT_BIAS - exponent
    };
    if down >= 64 {
        return 1;
    }
    let power = two_to(down);
    let whole = significand / power;
    if significand % power == 0 {
        whole
    } else {
        whole + 1
    }
}

/// `spec_two_to` gives the powers of two: one for zero, and twice as much
/// for each step up.
pub proof fn lemma_two_to_doubles(k: int)
    requires
        0 <= k < 63,
    ensures
        spec_two_to(0) == 1,
        spec_two_to(k + 1) == 2 * spec_two_to(k),
        spec_two_to(k) >= 1,
{
}

/// The rounded value is the least whole number that is not below the
/// double, for every double that is a number and not below zero.
///
/// Where the significand is to be multiplied, the double is itself a whole
/// number: the result is that number, or `u64::MAX` where it is beyond.
/// Where the significand is to be divided by two to the power `k`, the
/// result times that power is not below the significand, and one less
/// times that power is: the result is at least the double and less than
/// one above it. A double so small that `k` exceeds 63 lies below one and
/// rounds up to one, unless it is zero.
pub proof fn lemma_rounded_up_is_least(bits: u64)
    requires
        spec_sign(bits) == 0,
        spec_exponent(bits) < EXPONENT_SPECIAL,
    ensures
        0 <= spec_significand(bits) < 2 * TWO_52,
        spec_shift_up(bits) >= 12 && spec_significand(bits) > 0 ==> {
            &&& spec_seconds_rounded_up(bits) == u64::MAX
            &&& spec_significand(bits) * spec_two_to(12) > u64::MAX
        },
        0 <= spec_shift_up(bits) < 12 ==> spec_seconds_rounded_up(bits) == spec_significand(
            bits,
        ) * spec_two_to(spec_shift_up(bits)),
        spec_shift_up(bits) < 0 && spec_shift_down(bits) < 64 ==> {
            &&& spec_significand(bits) <= spec_seconds_rounded_up(bits) * spec_two_to(
                spec_shift_down(bits),
            )
            &&& spec_significand(bits) > (spec_seconds_rounded_up(bits) - 1) * spec_two_to(
                spec_shift_down(bits),
            )
        },
        spec_shift_up(bits) < 0 && spec_shift_down(bits) >= 64 ==> {
            &&& spec_significand(bits) < spec_two_to(63)
            &&& spec_seconds_rounded_up(bits) == if spec_significand(bits) == 0 {
                0u64
            } else {
                1u64
            }
        },
{
    let m = spec_significand(bits);
    if spec_shift_up(bits) >= 12 && m > 0 {
        assert(m >= TWO_52);
        assert(spec_two_to(12) == 4096);
    }
    if 0 <= spec_shift_up(bits) < 12 {
        let p = spec_two_to(spec_shift_up(bits));
        assert(p <= 2048);
        assert(m * p <= u64::MAX) by (nonlinear_arith)
            requires
                0 <= m < 9_007_199_254_740_992,
                1 <= p <= 2048,
        ;
        assert(m * p >= 0) by (nonlinear_arith)
            requires
                0 <= m,
                1 <= p,
        ;
    }
    if spec_shift_up(bits) < 0 && spec_shift_down(bits) < 64 {
        let p = spec_two_to(spec_shift_down(bits));
        assert(p >= 1);
        if m > 0 {
            vstd::arithmetic::div_mod::lemma_fundamental_div_mod(m, p);
            let q = m / p;
            let r = m % p;
            assert(m == p * q + r);
            assert(0 <= r < p);
            assert(q >= 0) by (nonlinear_arith)
                requires
                    m == p * q + r,
                    0 <= r < p,
                    m >= 0,
                    p >= 1,
            ;
            assert(q <= m) by (nonlinear_arith)
                requires
                    m == p * q + r,
                    0 <= r,
                    q >= 0,
                    p >= 1,
            ;
            assert(p * q == q * p) by (nonlinear_arith);
            assert((q + 1) * p == q * p + p) by (nonlinear_arith);
            assert((q - 1) * p == q * p - p) by (nonlinear_arith);
        } else {
            assert(0int % p == 0) by (nonlinear_arith)
                requires
                    p >= 1,
            ;
            assert(0int / p == 0) by (nonlinear_arith)
                requires
                    p >= 1,
            ;
            assert((0int - 1) * p < 0) by (nonlinear_arith)
                requires
                    p >= 1,
            ;
        }
    }
    if spec_shift_up(bits) < 0 && spec_shift_down(bits) >= 64 {
        assert(spec_two_to(63) == 9_223_372_036_854_775_808);
    }
}

/// One and a half rounds up to two.
proof fn lemma_one_and_a_half()
    ensures
        spec_seconds_rounded_up(0x3ff8000000000000) == 2,
{
    assert(spec_sign(0x3ff8000000000000) == 0);
    assert(spec_exponent(0x3ff8000000000000) == 1023);
    assert(spec_significand(0x3ff8000000000000) == 6755399441055744);
    assert(spec_shift_down(0x3ff8000000000000) == 52);
    assert(spec_two_to(52) == 4503599627370496);
    assert(6755399441055744int % 4503599627370496 != 0);
    assert(6755399441055744int / 4503599627370496 == 1);
}

/// Two stays two.
proof fn lemma_two()
    ensures
        spec_seconds_rounded_up(0x4000000000000000) == 2,
{
    assert(spec_sign(0x4000000000000000) == 0);
    assert(spec_exponent(0x4000000000000000) == 1024);
    assert(spec_significand(0x4000000000000000) == 4503599627370496);
    assert(spec_shift_down(0x4000000000000000) == 51);
    assert(spec_two_to(51) == 2251799813685248);
    assert(4503599627370496int % 2251799813685248 == 0);
    assert(4503599627370496int / 2251799813685248 == 2);
}

/// A quarter rounds up to one.
proof fn lemma_a_quarter()
    ensures
        spec_seconds_rounded_up(0x3fd0000000000000) == 1,
{
    assert(spec_sign(0x3fd0000000000000) == 0);
    assert(spec_exponent(0x3fd0000000000000) == 1021);
    assert(spec_significand(0x3fd0000000000000) == 4503599627370496);
    assert(spec_shift_down(0x3fd0000000000000) == 54);
    assert(spec_two_to(54) == 18014398509481984);
    assert(4503599627370496int % 18014398509481984 != 0);
    assert(4503599627370496int / 18014398509481984 == 0);
}

/// Seven and a half rounds up to eight.
proof fn lemma_seven_and_a_half()
    ensures
        spec_seconds_rounded_up(0x401e000000000000) == 8,
{
    assert(spec_sign(0x401e000000000000) == 0);
    assert(spec_exponent(0x401e000000000000) == 1025);
    assert(spec_significand(0x401e000000000000) == 8444249301319680);
    assert(spec_shift_down(0x401e000000000000) == 50);
    assert(spec_two_to(50) == 1125899906842624);
    assert(8444249301319680int % 1125899906842624 != 0);
    assert(8444249301319680int / 1125899906842624 == 7);
}

/// One and a half rounds up to two, two stays two, a quarter rounds up to
/// one, seven and a half rounds up to eight, zero stays zero, and what
/// lies below zero becomes zero.
pub proof fn lemma_rounded_up_examples()
    ensures
        spec_seconds_rounded_up(0x3ff8000000000000) == 2,
        spec_seconds_rounded_up(0x4000000000000000) == 2,
        spec_seconds_rounded_up(0x3fd0000000000000) == 1,
        spec_seconds_rounded_up(0x401e000000000000) == 8,
        spec_seconds_rounded_up(0) == 0,
        spec_seconds_rounded_up(0xbff8000000000000) == 0,
{
    lemma_one_and_a_half();
    lemma_two();
    lemma_a_quarter();
    lemma_seven_and_a_half();
}

} // verus!
