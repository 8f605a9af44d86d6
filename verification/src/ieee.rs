//! Readings that arrive as IEEE-754 doubles.
//!
//! A double is taken by its bit pattern and turned into millionths by
//! integer arithmetic alone. The result is the reading times one million,
//! rounded to the nearest whole number, halves away from zero. Infinities,
//! NaN and readings beyond the range of the fixed-point type have no
//! image.

use vstd::prelude::*;
use vstd::arithmetic::power2::{
    lemma2_to64, lemma_pow2_adds, lemma_pow2_pos, lemma_pow2_strictly_increases,
    lemma_pow2_unfold, pow2,
};

verus! {

/// Two to the power 52: the span of the fraction field.
pub const FRACTION_SPAN: u64 = 0x10_0000_0000_0000;

/// The exponent field of a bit pattern: eleven bits above the fraction.
pub open spec fn exponent_field(bits: u64) -> int {
    (bits / FRACTION_SPAN) as int % 2048
}

/// The fraction field of a bit pattern: its low 52 bits.
pub open spec fn fraction_field(bits: u64) -> int {
    (bits % FRACTION_SPAN) as int
}

/// Whether the sign bit is set.
pub open spec fn is_negative(bits: u64) -> bool {
    bits >= 0x8000_0000_0000_0000
}

/// Whether the pattern stands for a number: not an infinity, not NaN.
pub open spec fn is_finite(bits: u64) -> bool {
    exponent_field(bits) != 2047
}

/// The significand: the fraction, with the implicit leading one unless the
/// number is subnormal.
pub open spec fn significand(bits: u64) -> int {
    if exponent_field(bits) == 0 {
        fraction_field(bits)
    } else {
        fraction_field(bits) + FRACTION_SPAN
    }
}

/// The power of two by which the significand is scaled: the magnitude of
/// the number is the significand times two to this power.
pub open spec fn binary_power(bits: u64) -> int {
    if exponent_field(bits) == 0 {
        -1074
    } else {
        exponent_field(bits) - 1075
    }
}

/// The magnitude of the number in millionths, rounded to the nearest whole
/// number, halves up.
pub open spec fn micro_magnitude(bits: u64) -> nat {
    let n = (significand(bits) * 1_000_000) as nat;
    let p = binary_power(bits);
    if p >= 0 {
        n * pow2(p as nat)
    } else {
        (n + pow2((-p - 1) as nat)) / pow2((-p) as nat)
    }
}

/// The number in millionths, where it is a number and fits the
/// fixed-point type.
pub open spec fn micro_of(bits: u64) -> Option<i64> {
    if !is_finite(bits) {
        None
    } else {
        let v = if is_negative(bits) {
            -(micro_magnitude(bits) as int)
        } else {
            micro_magnitude(bits) as int
        };
        if i64::MIN <= v <= i64::MAX {
            Some(v as i64)
        } else {
            None
        }
    }
}

/// The image of a reading below two to the power 52 lies within half a
/// millionth of the reading: with the reading written as `n / w`
/// millionths, twice the distance of the image from it is at most one.
pub proof fn lemma_rounding_is_nearest(bits: u64)
    requires
        binary_power(bits) < 0,
    ensures
        ({
            let n = significand(bits) * 1_000_000;
            let w = pow2((-binary_power(bits)) as nat) as int;
            let image = micro_magnitude(bits) as int;
            -w < 2 * (image * w - n) <= w
        }),
{
    let k = (-binary_power(bits)) as nat;
    let n = significand(bits) * 1_000_000;
    let half = pow2((k - 1) as nat) as int;
    let w = pow2(k) as int;
    lemma_pow2_unfold(k);
    lemma_pow2_pos((k - 1) as nat);
    let top = n + half;
    let image = top / w;
    vstd::arithmetic::div_mod::lemma_fundamental_div_mod(top, w);
    vstd::arithmetic::div_mod::lemma_mod_bound(top, w);
    assert(image * w == w * image) by (nonlinear_arith);
}

/// The value of two to the power 74.
proof fn lemma_pow2_74()
    ensures
        pow2(74) == 0x400_0000_0000_0000_0000,
{
    lemma2_to64();
    lemma_pow2_adds(64, 10);
    assert(0x1_0000_0000_0000_0000 * 0x400 == 0x400_0000_0000_0000_0000) by (nonlinear_arith);
}

/// Two to the power `k`, for `k` up to 74.
fn power_of_two(k: u64) -> (r: u128)
    requires
        k <= 74,
    ensures
        r == pow2(k as nat),
        r <= 0x400_0000_0000_0000_0000,
{
    proof {
        lemma2_to64();
        lemma_pow2_74();
        lemma_pow2_pos(74);
    }
    let mut r: u128 = 1;
    let mut i: u64 = 0;
    while i < k
        invariant
            i <= k <= 74,
            r == pow2(i as nat),
            r <= pow2(74),
            pow2(74) == 0x400_0000_0000_0000_0000,
        decreases k - i,
    {
        proof {
            lemma_pow2_unfold((i + 1) as nat);
            if i + 1 < 74 {
                lemma_pow2_strictly_increases((i + 1) as nat, 74);
            }
        }
        r = r * 2;
        i += 1;
    }
    r
}

/// Turns the bit pattern of a double into millionths.
pub fn micro_from_f64_bits(bits: u64) -> (r: Option<i64>)
    ensures
        r == micro_of(bits),
{
    let e: u64 = (bits / FRACTION_SPAN) % 2048;
    if e == 2047 {
        return None;
    }
    let f: u64 = bits % FRACTION_SPAN;
    let negative = bits >= 0x8000_0000_0000_0000;
    let sig: u64 = if e == 0 {
        f
    } else {
        f + FRACTION_SPAN
    };
    let n: u128 = sig as u128 * 1_000_000;
    if e >= 1075 {
        proof {
            let p = (e - 1075) as nat;
            lemma_pow2_pos(p);
            assert(n * pow2(p) >= n) by (nonlinear_arith)
                requires
                    pow2(p) >= 1,
                    n >= 0,
            ;
        }
        return None;
    }
    let k: u64 = if e == 0 {
        1074
    } else {
        1075 - e
    };
    assert(binary_power(bits) == -(k as int));
    let magnitude: u128 = if k >= 75 {
        proof {
            let half = pow2((k - 1) as nat) as int;
            lemma_pow2_74();
            if k - 1 > 74 {
                lemma_pow2_strictly_increases(74, (k - 1) as nat);
            }
            lemma_pow2_unfold(k as nat);
            let top = n as int + half;
            let whole = 2 * half;
            assert(top / whole == 0) by (nonlinear_arith)
                requires
                    0 <= top < whole,
            ;
        }
        0
    } else {
        let half = power_of_two(k - 1);
        let whole = power_of_two(k);
        proof {
            lemma_pow2_pos(k as nat);
        }
        (n + half) / whole
    };
    assert(magnitude == micro_magnitude(bits));
    if negative {
        if magnitude > 0x8000_0000_0000_0000 {
            None
        } else if magnitude == 0x8000_0000_0000_0000 {
            Some(i64::MIN)
        } else {
            Some(-(magnitude as i64))
        }
    } else {
        if magnitude > i64::MAX as u128 {
            None
        } else {
            Some(magnitude as i64)
        }
    }
}

} // verus!
