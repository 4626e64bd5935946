//! Fixed-point arithmetic: scalars counted in millionths, blend fractions in million-millionths.
use vstd::prelude::*;

verus! {

/// One whole unit, in the millionths that scalars are counted in.
pub const SCALE: i64 = 1_000_000;

/// The blend fraction one, in the million-millionths that blend fractions are counted in.
pub const WHOLE: u64 = 1_000_000_000_000;

/// `x`, held to the range of an `i64`.
pub open spec fn saturated(x: int) -> int {
    if x < i64::MIN as int {
        i64::MIN as int
    } else if x > i64::MAX as int {
        i64::MAX as int
    } else {
        x
    }
}

/// Narrows a wide intermediate result to a scalar, stopping at the ends of the range.
pub fn saturate(x: i128) -> (r: i64)
    ensures
        r as int == saturated(x as int),
{
    if x < i64::MIN as i128 {
        i64::MIN
    } else if x > i64::MAX as i128 {
        i64::MAX
    } else {
        x as i64
    }
}

/// The quotient of `n` by a positive `d`, rounded toward zero.
pub open spec fn quotient_toward_zero(n: int, d: int) -> int {
    if n >= 0 {
        n / d
    } else {
        -((-n) / d)
    }
}

/// The product of two scalars as a scalar: `x * k / SCALE`, rounded toward zero and saturated.
pub open spec fn scaled(x: int, k: int) -> int {
    saturated(quotient_toward_zero(x * k, SCALE as int))
}

/// The quotient of two scalars as a scalar: `x * SCALE / d`, rounded toward zero and saturated.
pub open spec fn divided(x: int, d: int) -> int {
    saturated(quotient_toward_zero(x * SCALE, d))
}

/// Multiplies a scalar by a scalar: a length by a sensitivity, a count of lines by a step.
pub fn scaled_by(x: i64, k: i64) -> (r: i64)
    ensures
        r as int == scaled(x as int, k as int),
{
    let product: i128 = wide_product(x, k);
    saturate(toward_zero(product, SCALE))
}

/// Multiplies a scalar by the opposite of a scalar.
pub fn scaled_against(x: i64, k: i64) -> (r: i64)
    ensures
        r as int == scaled(x as int, -(k as int)),
{
    let product: i128 = wide_product(x, k);
    proof {
        assert(x as int * (-(k as int)) == -(x as int * k as int)) by (nonlinear_arith);
    }
    saturate(toward_zero(-product, SCALE))
}

/// Divides a scalar by a positive scalar.
pub fn divided_by(x: i64, d: i64) -> (r: i64)
    requires
        d > 0,
    ensures
        r as int == divided(x as int, d as int),
{
    let product: i128 = wide_product(x, SCALE);
    saturate(toward_zero(product, d))
}

/// The exact product of two scalars.
fn wide_product(x: i64, k: i64) -> (r: i128)
    ensures
        r as int == x as int * k as int,
        -0x4000_0000_0000_0000_0000_0000_0000_0000 <= r as int
            <= 0x4000_0000_0000_0000_0000_0000_0000_0000,
{
    proof {
        lemma_product_bound(x as int, k as int, 0x8000_0000_0000_0000);
    }
    (x as i128) * (k as i128)
}

/// `n / d` for a positive `d`, rounded toward zero.
fn toward_zero(n: i128, d: i64) -> (r: i128)
    requires
        d > 0,
        -0x4000_0000_0000_0000_0000_0000_0000_0000 <= n as int
            <= 0x4000_0000_0000_0000_0000_0000_0000_0000,
    ensures
        r as int == quotient_toward_zero(n as int, d as int),
{
    if n >= 0 {
        let magnitude: u128 = n as u128;
        let q: u128 = magnitude / (d as u128);
        q as i128
    } else {
        let magnitude: u128 = (-n) as u128;
        let q: u128 = magnitude / (d as u128);
        -(q as i128)
    }
}

/// A product is no larger than the product of the bounds of its factors.
proof fn lemma_product_bound(a: int, b: int, m: int)
    by (nonlinear_arith)
    requires
        -m <= a <= m,
        -m <= b <= m,
    ensures
        -(m * m) <= a * b <= m * m,
{
}

} // verus!
