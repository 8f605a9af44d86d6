//! Fixed-point arithmetic in millionths.
//!
//! A value `v` of type `i64` stands for the real number `v / 1_000_000`.
//! Comparisons of such values are comparisons of the reals they stand for,
//! and the smallest step between two values is one millionth.

use vstd::prelude::*;

verus! {

/// The fixed-point image of the real number one.
pub const UNIT: i64 = 1_000_000;

/// `raw` limited to the closed interval from zero to one.
pub open spec fn clamp_unit_spec(raw: int) -> int {
    if raw < 0 {
        0
    } else if raw > UNIT as int {
        UNIT as int
    } else {
        raw
    }
}

/// Limits `raw` to the closed interval from zero to one.
pub fn clamp_unit(raw: i64) -> (r: i64)
    ensures
        r as int == clamp_unit_spec(raw as int),
        0 <= r <= UNIT,
{
    if raw < 0 {
        0
    } else if raw > UNIT {
        UNIT
    } else {
        raw
    }
}

/// Clamping is the identity on the unit interval, is idempotent and is
/// monotone.
pub proof fn lemma_clamp_unit_properties(a: int, b: int)
    ensures
        0 <= a <= UNIT as int ==> clamp_unit_spec(a) == a,
        clamp_unit_spec(clamp_unit_spec(a)) == clamp_unit_spec(a),
        a <= b ==> clamp_unit_spec(a) <= clamp_unit_spec(b),
{
}

/// The product of a value and a fraction, both in millionths, as a
/// number of millionths rounded toward zero.
pub open spec fn scaled_spec(value: int, fraction: int) -> int {
    let p = value * fraction;
    if p >= 0 {
        p / (UNIT as int)
    } else {
        -((-p) / (UNIT as int))
    }
}

/// A fraction within zero and one only damps: the scaled value is never
/// larger in magnitude than the value, and it keeps the sign or is zero.
pub proof fn lemma_damping_never_amplifies(value: int, fraction: int)
    requires
        0 <= fraction <= UNIT as int,
    ensures
        value >= 0 ==> 0 <= scaled_spec(value, fraction) <= value,
        value <= 0 ==> value <= scaled_spec(value, fraction) <= 0,
        scaled_spec(value, UNIT as int) == value,
        scaled_spec(value, 0) == 0,
{
    let unit = UNIT as int;
    if value >= 0 {
        assert(0 <= value * fraction <= value * unit) by (nonlinear_arith)
            requires
                value >= 0,
                0 <= fraction <= unit,
        ;
        assert((value * fraction) / unit <= value) by (nonlinear_arith)
            requires
                0 <= value * fraction <= value * unit,
                unit > 0,
        ;
        assert((value * fraction) / unit >= 0) by (nonlinear_arith)
            requires
                0 <= value * fraction,
                unit > 0,
        ;
    } else {
        assert(0 <= -(value * fraction) <= (-value) * unit) by (nonlinear_arith)
            requires
                value < 0,
                0 <= fraction <= unit,
        ;
        assert((-(value * fraction)) / unit <= -value) by (nonlinear_arith)
            requires
                0 <= -(value * fraction) <= (-value) * unit,
                unit > 0,
        ;
        assert((-(value * fraction)) / unit >= 0) by (nonlinear_arith)
            requires
                0 <= -(value * fraction),
                unit > 0,
        ;
        if value * fraction == 0 {
            assert(0int / unit == 0);
        }
    }
    assert((value * unit) / unit == value) by (nonlinear_arith)
        requires
            unit > 0,
    ;
    assert((-(value * unit)) / unit == -value) by (nonlinear_arith)
        requires
            unit > 0,
    ;
    assert(value * 0 == 0) by (nonlinear_arith);
    assert(0int / unit == 0);
}

/// `x` limited to the range of `i64`.
pub open spec fn saturated(x: int) -> i64 {
    if x > i64::MAX {
        i64::MAX
    } else if x < i64::MIN {
        i64::MIN
    } else {
        x as i64
    }
}

/// Multiplies a value by a fraction, both in millionths. The result is
/// rounded toward zero and saturates at the limits of the number type.
pub fn scale_by(value: i64, fraction: i64) -> (r: i64)
    ensures
        r == saturated(scaled_spec(value as int, fraction as int)),
{
    let negative = (value < 0) != (fraction < 0);
    let a: i128 = if value < 0 {
        -(value as i128)
    } else {
        value as i128
    };
    let b: i128 = if fraction < 0 {
        -(fraction as i128)
    } else {
        fraction as i128
    };
    assert(0 <= a * b <= 0x8000_0000_0000_0000 * 0x8000_0000_0000_0000) by (nonlinear_arith)
        requires
            0 <= a <= 0x8000_0000_0000_0000,
            0 <= b <= 0x8000_0000_0000_0000,
    ;
    assert(a * b == value * fraction || a * b == -(value * fraction)) by (nonlinear_arith)
        requires
            a == value || a == -value,
            b == fraction || b == -fraction,
    ;
    assert(negative ==> a * b == -(value * fraction)) by (nonlinear_arith)
        requires
            negative == ((value < 0) != (fraction < 0)),
            a == (if value < 0 {
                -value
            } else {
                value as int
            }),
            b == (if fraction < 0 {
                -fraction
            } else {
                fraction as int
            }),
    ;
    assert(!negative ==> a * b == value * fraction) by (nonlinear_arith)
        requires
            negative == ((value < 0) != (fraction < 0)),
            a == (if value < 0 {
                -value
            } else {
                value as int
            }),
            b == (if fraction < 0 {
                -fraction
            } else {
                fraction as int
            }),
    ;
    let magnitude: i128 = (a * b) / (UNIT as i128);
    if negative {
        if magnitude > 0x8000_0000_0000_0000 {
            i64::MIN
        } else {
            (-magnitude) as i64
        }
    } else {
        if magnitude > i64::MAX as i128 {
            i64::MAX
        } else {
            magnitude as i64
        }
    }
}

} // verus!
