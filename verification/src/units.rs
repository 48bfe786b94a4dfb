//! Fixed-point numbers. Lengths, coordinates, colour channels and glow
//! intensities are whole numbers of millionths, so that every formula of the
//! renderer is exact integer arithmetic.

use vstd::prelude::*;

verus! {

/// The fixed-point representation of 1.
pub const UNIT: i64 = 1_000_000;

/// `v` held to the range of `i64`.
pub open spec fn clamp_i64(v: int) -> int {
    if v < i64::MIN {
        i64::MIN as int
    } else if v > i64::MAX {
        i64::MAX as int
    } else {
        v
    }
}

/// The quotient `n / d` rounded toward zero.
pub open spec fn div_toward_zero(n: int, d: int) -> int
    recommends
        d > 0,
{
    if n >= 0 {
        n / d
    } else {
        -((-n) / d)
    }
}

/// The fixed-point product of `x` and `factor`, rounded toward zero.
pub open spec fn scaled(x: int, factor: int) -> int {
    div_toward_zero(x * factor, UNIT as int)
}

/// The product of two numbers of 64 bits fits in 128 bits with room to spare.
pub proof fn lemma_product_fits(x: int, y: int)
    requires
        i64::MIN <= x <= i64::MAX,
        i64::MIN <= y <= i64::MAX,
    ensures
        -0x4000_0000_0000_0000_0000_0000_0000_0000 <= x * y <= 0x4000_0000_0000_0000_0000_0000_0000_0000,
{
    assert(-0x4000_0000_0000_0000_0000_0000_0000_0000 <= x * y
        <= 0x4000_0000_0000_0000_0000_0000_0000_0000) by (nonlinear_arith)
        requires
            -0x8000_0000_0000_0000 <= x <= 0x8000_0000_0000_0000,
            -0x8000_0000_0000_0000 <= y <= 0x8000_0000_0000_0000,
    ;
}

/// The fixed-point product of two numbers that are not negative is the plain
/// quotient of their product, it is not negative, and it is no more than
/// the product of any bounds on the two.
pub proof fn lemma_scaled_nonneg(x: int, factor: int, x_max: int, factor_max: int)
    requires
        0 <= x <= x_max,
        0 <= factor <= factor_max,
    ensures
        0 <= x * factor <= x_max * factor_max,
        scaled(x, factor) == (x * factor) / (UNIT as int),
        0 <= scaled(x, factor) <= (x_max * factor_max) / (UNIT as int),
{
    assert(0 <= x * factor <= x_max * factor_max) by (nonlinear_arith)
        requires
            0 <= x <= x_max,
            0 <= factor <= factor_max,
    ;
}

/// The fixed-point product of a number within `x_max` of zero and a factor
/// from 0 to `factor_max` is within the product of the two bounds of zero.
pub proof fn lemma_scaled_bounds(x: int, factor: int, x_max: int, factor_max: int)
    requires
        -x_max <= x <= x_max,
        0 <= factor <= factor_max,
    ensures
        -((x_max * factor_max) / (UNIT as int)) <= scaled(x, factor) <= (x_max * factor_max) / (
        UNIT as int),
{
    if x >= 0 {
        lemma_scaled_nonneg(x, factor, x_max, factor_max);
    } else {
        lemma_scaled_nonneg(-x, factor, x_max, factor_max);
        assert(x * factor == -((-x) * factor)) by (nonlinear_arith);
    }
}

/// Scaling by 1 changes nothing, scaling by -1 changes the sign, and
/// scaling 0 gives 0.
pub proof fn lemma_scaled_by_one(v: int)
    ensures
        scaled(UNIT as int, v) == v,
        scaled(-(UNIT as int), v) == -v,
        scaled(v, UNIT as int) == v,
        scaled(0, v) == 0,
{
    let unit = UNIT as int;
    assert(unit == 1_000_000);
    assert(unit * v == 1_000_000 * v && v * unit == 1_000_000 * v && (-unit) * v == -(1_000_000
        * v) && 0 * v == 0) by (nonlinear_arith)
        requires
            unit == 1_000_000,
    ;
}

/// `n / d`, rounded toward zero.
pub fn divide(n: i128, d: i128) -> (q: i128)
    requires
        d > 0,
    ensures
        q == div_toward_zero(n as int, d as int),
{
    if n >= 0 {
        n / d
    } else if n == i128::MIN {
        let half: i128 = (n + d) / d;
        proof {
            lemma_shifted_quotient(-(n as int), d as int);
        }
        half - 1
    } else {
        -((-n) / d)
    }
}

/// Taking one divisor off a dividend takes one off the quotient.
pub proof fn lemma_shifted_quotient(n: int, d: int)
    requires
        d > 0,
        n >= d,
    ensures
        (n - d) / d == n / d - 1,
{
    vstd::arithmetic::div_mod::lemma_div_plus_one(n - d, d);
}

/// `v` held to the range of `i64`.
pub fn clamp(v: i128) -> (r: i64)
    ensures
        r == clamp_i64(v as int),
{
    if v < i64::MIN as i128 {
        i64::MIN
    } else if v > i64::MAX as i128 {
        i64::MAX
    } else {
        v as i64
    }
}

/// The fixed-point product of `x` and `factor`, rounded toward zero and held
/// to the range of `i64`.
pub fn scale(x: i64, factor: i64) -> (r: i64)
    ensures
        r == clamp_i64(scaled(x as int, factor as int)),
{
    proof {
        lemma_product_fits(x as int, factor as int);
    }
    let product: i128 = (x as i128) * (factor as i128);
    clamp(divide(product, UNIT as i128))
}

/// The sum of `a` and `b`, held to the range of `i64`.
pub fn add_clamped(a: i64, b: i64) -> (r: i64)
    ensures
        r == clamp_i64(a + b),
{
    clamp(a as i128 + b as i128)
}

} // verus!
