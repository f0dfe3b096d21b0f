//! Exact integer arithmetic shared by the rules: the scale of a fraction,
//! saturation into `i64`, and floor and ceiling division.

use vstd::prelude::*;

verus! {

/// One whole, in parts per million: a fraction `f` stands for `f / PPM`.
pub const PPM: u32 = 1_000_000;

/// `PPM` as a number that specifications multiply and divide by.
#[verifier::inline]
pub open spec fn whole() -> int {
    1_000_000
}

/// The value of `i64` nearest to `x`.
pub open spec fn clamp_i64(x: int) -> int {
    if x < i64::MIN {
        i64::MIN as int
    } else if x > i64::MAX {
        i64::MAX as int
    } else {
        x
    }
}

/// The smallest integer that is at least `n / d`, for a positive `d`.
pub open spec fn ceil_div(n: int, d: int) -> int {
    -((-n) / d)
}

/// Narrows a wide integer to the nearest `i64`.
pub fn saturate(x: i128) -> (r: i64)
    ensures
        r == clamp_i64(x as int),
{
    if x < i64::MIN as i128 {
        i64::MIN
    } else if x > i64::MAX as i128 {
        i64::MAX
    } else {
        x as i64
    }
}

/// The product of a fraction and an amount, which always fits in `i128`.
pub fn scaled(fraction: u32, amount: i64) -> (product: i128)
    ensures
        product == fraction * amount,
        -0x8000_0000_0000_0000_0000_0000 <= product <= 0x8000_0000_0000_0000_0000_0000,
{
    assert(-0x8000_0000_0000_0000_0000_0000 <= fraction * amount
        <= 0x8000_0000_0000_0000_0000_0000) by (nonlinear_arith)
        requires
            0 <= fraction <= 0xffff_ffff,
            -0x8000_0000_0000_0000 <= amount <= 0x7fff_ffff_ffff_ffff,
    ;
    (fraction as i128) * (amount as i128)
}

/// An integer as a count of millionths: `x * PPM`.
pub(crate) fn in_millionths(x: i128) -> (r: i128)
    requires
        -0x1_0000_0000_0000_0000_0000_0000 <= x <= 0x1_0000_0000_0000_0000_0000_0000,
    ensures
        r == x * whole(),
{
    let scale: i128 = PPM as i128;
    assert(scale == 1_000_000);
    x * scale
}

/// For a positive `d`, `x * d <= n` exactly when `x <= n / d`.
pub proof fn lemma_floor_threshold(x: int, n: int, d: int)
    by (nonlinear_arith)
    requires
        d > 0,
    ensures
        x * d <= n <==> x <= n / d,
{
}

/// For a positive `d`, `x * d >= n` exactly when `x >= ceil_div(n, d)`.
pub proof fn lemma_ceil_threshold(x: int, n: int, d: int)
    requires
        d > 0,
    ensures
        x * d >= n <==> x >= ceil_div(n, d),
{
    lemma_floor_threshold(-x, -n, d);
    assert((-x) * d == -(x * d)) by (nonlinear_arith);
}

/// Floor division by a positive divisor.
pub(crate) fn floor_div(n: i128, d: i128) -> (q: i128)
    requires
        d > 0,
    ensures
        q == n / d,
{
    proof {
        lemma_quotient_bounds(n as int, d as int);
    }
    match n.checked_div_euclid(d) {
        Some(q) => q,
        None => 0,
    }
}

/// A quotient by a positive divisor is no larger in magnitude than the dividend.
pub proof fn lemma_quotient_bounds(n: int, d: int)
    by (nonlinear_arith)
    requires
        d > 0,
    ensures
        n >= 0 ==> 0 <= n / d <= n,
        n < 0 ==> n <= n / d < 0,
{
}

} // verus!
